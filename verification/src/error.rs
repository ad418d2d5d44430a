use vstd::prelude::*;

verus! {

/// Why an instruction was refused.
///
/// The first group are the vault program's own errors; the second are the
/// errors of the account constraints that the instructions declare; the last
/// carry a failure to read the vault's account data.
#[derive(Clone, Copy, Debug, PartialEq, Eq, Structural)]
pub enum VaultError {
    /// The signer is not the vault's authority.
    UnauthorizedSigner,
    /// The pending-deposit account is not the one the vault records.
    InvalidPendingVault,
    /// Requests are still awaiting approval or claim.
    VaultHasPendingAsyncRequests,
    /// Shares are still outstanding.
    ShareMintSupplyMustBeZeroBeforeClosing,
    /// The subscription queue still holds unprocessed entries.
    SubscriptionQueueNotDrained,
    /// The redemption queue still holds unprocessed entries.
    RedemptionQueueNotDrained,
    /// The vault is paused.
    PausedVault,
    /// The vault is already winding down.
    VaultAlreadyClosing,
    /// Redemptions are paused.
    RedemptionsPaused,
    /// The account that must sign the instruction did not.
    AccountNotSigner,
    /// An account that must be writable is not.
    ConstraintMut,
    /// A declared account condition does not hold.
    ConstraintRaw,
    /// An account is not at the address its seeds derive.
    ConstraintSeeds,
    /// An account would be closed into itself.
    ConstraintClose,
    /// A token account holds another mint.
    ConstraintTokenMint,
    /// A token account belongs to another owner.
    ConstraintTokenOwner,
    /// A token account belongs to another token program.
    ConstraintTokenTokenProgram,
    /// The same account was passed twice as writable.
    ConstraintDuplicateMutableAccount,
    /// The vault's account data could not be borrowed.
    AccountBorrowFailed,
    /// A vault extension could not be read; the code is the one the reader reported.
    ExtensionReadFailed(u32),
}


/// `Some(e)` where a check fails, `None` where it holds.
pub open spec fn check(holds: bool, e: VaultError) -> Option<VaultError> {
    if holds {
        None
    } else {
        Some(e)
    }
}

/// The first of two outcomes that is an error, if either is.
pub open spec fn or_else(first: Option<VaultError>, then: Option<VaultError>) -> Option<VaultError> {
    if first is Some {
        first
    } else {
        then
    }
}

/// An outcome as the result an instruction returns.
pub open spec fn as_result(e: Option<VaultError>) -> Result<(), VaultError> {
    match e {
        Some(e) => Err(e),
        None => Ok(()),
    }
}

} // verus!
