use crate::address::{address_option_view, Address};
use crate::error::{as_result, check, or_else, VaultError};
use vstd::prelude::*;

verus! {

/// The vault's configuration, as its account stores it.
#[derive(Clone, Copy, Debug)]
pub struct VaultState {
    /// The key that may administer, shut down and close the vault.
    pub authority: Address,
    /// The bump byte of the configuration account's address.
    pub bump: u8,
    /// The reserve token account.
    pub vault_token_account: Address,
    /// The token account that holds deposits awaiting approval.
    pub pending_vault: Address,
    /// Requests not yet settled.
    pub pending_async_requests: u16,
    /// Whether the vault is paused.
    pub paused: bool,
    /// Whether the vault is winding down.
    pub closing: bool,
}

/// Progress of a first-in-first-out request queue kept as a vault extension.
#[derive(Clone, Copy, Debug)]
pub struct QueueProgress {
    /// Entries processed so far.
    pub last_processed: u64,
    /// Entries ever enqueued.
    pub total: u64,
}

/// What reading an optional vault extension gave: `Ok(None)` where the vault
/// has no such extension, an error where its data could not be read.
pub type ExtensionRead<T> = Result<Option<T>, VaultError>;

/// The vault extensions that the instructions consult.
#[derive(Clone, Copy, Debug)]
pub struct VaultExtensions {
    /// The subscription queue.
    pub subscription_queue: ExtensionRead<QueueProgress>,
    /// The redemption queue.
    pub redemption_queue: ExtensionRead<QueueProgress>,
    /// The pausable-redemptions switch: whether redemptions are paused.
    pub pausable_redemptions: ExtensionRead<bool>,
}

/// The vault's configuration account.
#[derive(Clone, Copy, Debug)]
pub struct VaultAccount {
    pub address: Address,
    pub is_writable: bool,
    pub state: VaultState,
    pub extensions: VaultExtensions,
}

/// The account that signs the instruction.
#[derive(Clone, Copy, Debug)]
pub struct SignerAccount {
    pub address: Address,
    /// Whether the transaction carries this account's signature.
    pub is_signer: bool,
    pub is_writable: bool,
}

/// A token mint.
#[derive(Clone, Copy, Debug)]
pub struct MintAccount {
    pub address: Address,
    pub is_writable: bool,
    /// Tokens in circulation.
    pub supply: u64,
    /// Decimal places of the token.
    pub decimals: u8,
}

/// A token account.
#[derive(Clone, Copy, Debug)]
pub struct TokenAccount {
    pub address: Address,
    pub is_writable: bool,
    /// The token program that owns the account.
    pub token_program: Address,
    /// The mint of the tokens it holds.
    pub mint: Address,
    /// The key that may move its tokens.
    pub owner: Address,
    /// Tokens held.
    pub amount: u64,
}

impl TokenAccount {
    /// The token-account constraints in the order they are checked: the owner,
    /// the mint, then the owning token program.
    pub open spec fn constraint_error(self, owner: Seq<u8>, mint: Seq<u8>, token_program: Seq<u8>) -> Option<VaultError> {
        or_else(
            check(self.owner@ == owner, VaultError::ConstraintTokenOwner),
            or_else(
                check(self.mint@ == mint, VaultError::ConstraintTokenMint),
                check(self.token_program@ == token_program, VaultError::ConstraintTokenTokenProgram),
            ),
        )
    }

    /// Checks that the account is owned by `owner`, holds `mint` and belongs to
    /// `token_program`.
    pub fn check_token_constraints(&self, owner: &Address, mint: &Address, token_program: &Address) -> (r: Result<(), VaultError>)
        ensures
            r == as_result(self.constraint_error(owner@, mint@, token_program@)),
    {
        if !self.owner.same(owner) {
            return Err(VaultError::ConstraintTokenOwner);
        }
        if !self.mint.same(mint) {
            return Err(VaultError::ConstraintTokenMint);
        }
        if !self.token_program.same(token_program) {
            return Err(VaultError::ConstraintTokenTokenProgram);
        }
        Ok(())
    }
}

impl VaultAccount {
    /// The seeds constraint: the account must be at the derived address
    /// `derived`, and a refused derivation fails it too.
    pub open spec fn seeds_error(self, derived: Option<Seq<u8>>) -> Option<VaultError> {
        check(derived matches Some(k) && k == self.address@, VaultError::ConstraintSeeds)
    }

    /// Checks the seeds constraint against the derived address `derived`.
    pub fn check_seeds(&self, derived: &Option<Address>) -> (r: Result<(), VaultError>)
        ensures
            r == as_result(self.seeds_error(address_option_view(*derived))),
    {
        match derived {
            Some(k) => {
                if k.same(&self.address) {
                    Ok(())
                } else {
                    Err(VaultError::ConstraintSeeds)
                }
            },
            None => Err(VaultError::ConstraintSeeds),
        }
    }
}

impl SignerAccount {
    /// The signature requirement: the account must have signed.
    pub open spec fn signer_error(self) -> Option<VaultError> {
        check(self.is_signer, VaultError::AccountNotSigner)
    }

    /// Checks that the account signed.
    pub fn check_signer(&self) -> (r: Result<(), VaultError>)
        ensures
            r == as_result(self.signer_error()),
    {
        if self.is_signer {
            Ok(())
        } else {
            Err(VaultError::AccountNotSigner)
        }
    }
}

/// What an instruction knows of the program that runs it.
#[derive(Clone, Debug)]
pub struct ProgramInfo {
    /// The program's address.
    pub program_id: Address,
    /// The prefix of the seeds of a vault's configuration account.
    pub vault_config_seed: Vec<u8>,
}

} // verus!
