use crate::address::{address_option_view, program_derived_address, vault_address, vault_seeds, Address};
use crate::error::{as_result, check, or_else, VaultError};
use crate::state::{ExtensionRead, MintAccount, ProgramInfo, SignerAccount, VaultAccount, VaultState};
use vstd::prelude::*;

verus! {

/// The accounts of the `shutdown_vault` instruction, as read from the chain.
#[derive(Clone, Copy, Debug)]
pub struct ShutdownVault {
    /// The vault's authority, signing.
    pub authority: SignerAccount,
    /// The mint of the vault's shares.
    pub share_mint: MintAccount,
    /// The vault's configuration account, written back after the instruction.
    pub vault: VaultAccount,
}

/// The outcome of the pausable-redemptions check: the error of a failed read,
/// `RedemptionsPaused` where redemptions are paused, and nothing where they are
/// not or the vault has no such switch.
pub open spec fn redemptions_paused_error(switch: ExtensionRead<bool>) -> Option<VaultError> {
    match switch {
        Err(e) => Some(e),
        Ok(Some(paused)) => check(!paused, VaultError::RedemptionsPaused),
        Ok(None) => None,
    }
}

/// Fails where redemptions are paused, or where the switch could not be read.
pub fn check_redemptions_paused(switch: &ExtensionRead<bool>) -> (r: Result<(), VaultError>)
    ensures
        r == as_result(redemptions_paused_error(*switch)),
{
    match switch {
        Err(e) => Err(*e),
        Ok(Some(paused)) => {
            if *paused {
                Err(VaultError::RedemptionsPaused)
            } else {
                Ok(())
            }
        },
        Ok(None) => Ok(()),
    }
}

impl ShutdownVault {
    /// The account requirements, in order: the authority signed (checked when
    /// the accounts are loaded), then the configuration account's constraints:
    /// its address is the one derived (`derived`), it is writable, and it names
    /// the signer as its authority.
    pub open spec fn account_error(self, derived: Option<Seq<u8>>) -> Option<VaultError> {
        or_else(
            self.authority.signer_error(),
            or_else(
                self.vault.seeds_error(derived),
                or_else(
                    check(self.vault.is_writable, VaultError::ConstraintMut),
                    check(self.authority.address@ == self.vault.state.authority@, VaultError::UnauthorizedSigner),
                ),
            ),
        )
    }

    /// The conditions for shutting down, in order: the vault is not paused, not
    /// already winding down, and its redemptions are not paused.
    pub open spec fn handler_error(self) -> Option<VaultError> {
        or_else(
            check(!self.vault.state.paused, VaultError::PausedVault),
            or_else(
                check(!self.vault.state.closing, VaultError::VaultAlreadyClosing),
                redemptions_paused_error(self.vault.extensions.pausable_redemptions),
            ),
        )
    }

    /// The whole instruction's outcome: the account constraints, then the
    /// conditions for shutting down.
    pub open spec fn shutdown_error(self, derived: Option<Seq<u8>>) -> Option<VaultError> {
        or_else(self.account_error(derived), self.handler_error())
    }

    /// The address derived for the configuration account under `program`.
    pub open spec fn derived_vault_address(self, program: ProgramInfo) -> Option<Seq<u8>> {
        program_derived_address(
            vault_seeds(program.vault_config_seed@, self.share_mint.address@, self.vault.state.bump),
            program.program_id@,
        )
    }

    /// The accounts after a shutdown: the vault is winding down, nothing else changes.
    pub open spec fn shut_down(self) -> ShutdownVault {
        ShutdownVault {
            vault: VaultAccount { state: VaultState { closing: true, ..self.vault.state }, ..self.vault },
            ..self
        }
    }

    /// Checks every account constraint, in order, given the address derived for
    /// the configuration account (`None` where the derivation was refused).
    pub fn check_accounts(&self, derived: &Option<Address>) -> (r: Result<(), VaultError>)
        ensures
            r == as_result(self.account_error(address_option_view(*derived))),
    {
        self.authority.check_signer()?;
        self.vault.check_seeds(derived)?;
        if !self.vault.is_writable {
            return Err(VaultError::ConstraintMut);
        }
        if !self.authority.address.same(&self.vault.state.authority) {
            return Err(VaultError::UnauthorizedSigner);
        }
        Ok(())
    }

    /// Checks every account constraint under `program`, deriving the address of
    /// the configuration account from its seeds.
    pub fn validate(&self, program: &ProgramInfo) -> (r: Result<(), VaultError>)
        ensures
            r == as_result(self.account_error(self.derived_vault_address(*program))),
    {
        let derived = vault_address(
            &program.vault_config_seed,
            &self.share_mint.address,
            self.vault.state.bump,
            &program.program_id,
        );
        self.check_accounts(&derived)
    }
}

/// Starts an irreversible wind-down, on accounts whose constraints hold: marks
/// the vault as closing, unless it is paused, already closing or its
/// redemptions are paused; a refusal changes nothing.
pub fn handler(accounts: &mut ShutdownVault) -> (r: Result<(), VaultError>)
    ensures
        match r {
            Ok(()) => old(accounts).handler_error() is None && *final(accounts) == old(accounts).shut_down(),
            Err(e) => old(accounts).handler_error() == Some(e) && *final(accounts) == *old(accounts),
        },
{
    if accounts.vault.state.paused {
        return Err(VaultError::PausedVault);
    }
    if accounts.vault.state.closing {
        return Err(VaultError::VaultAlreadyClosing);
    }
    check_redemptions_paused(&accounts.vault.extensions.pausable_redemptions)?;
    accounts.vault.state.closing = true;
    Ok(())
}

/// The `shutdown_vault` instruction given the address derived for the
/// configuration account (`None` where the derivation was refused): the account
/// constraints, then the shutdown; a refusal changes nothing.
pub fn shutdown_vault_at(accounts: &mut ShutdownVault, derived: &Option<Address>) -> (r: Result<(), VaultError>)
    ensures
        match r {
            Ok(()) => old(accounts).shutdown_error(address_option_view(*derived)) is None
                && *final(accounts) == old(accounts).shut_down(),
            Err(e) => old(accounts).shutdown_error(address_option_view(*derived)) == Some(e)
                && *final(accounts) == *old(accounts),
        },
{
    accounts.check_accounts(derived)?;
    handler(accounts)
}

/// The `shutdown_vault` instruction: the account constraints, with the
/// configuration account's address derived from its seeds under `program`, then
/// the shutdown; a refusal changes nothing.
pub fn shutdown_vault(program: &ProgramInfo, accounts: &mut ShutdownVault) -> (r: Result<(), VaultError>)
    ensures
        match r {
            Ok(()) => old(accounts).shutdown_error(old(accounts).derived_vault_address(*program)) is None
                && *final(accounts) == old(accounts).shut_down(),
            Err(e) => old(accounts).shutdown_error(old(accounts).derived_vault_address(*program)) == Some(e)
                && *final(accounts) == *old(accounts),
        },
{
    let derived = vault_address(
        &program.vault_config_seed,
        &accounts.share_mint.address,
        accounts.vault.state.bump,
        &program.program_id,
    );
    shutdown_vault_at(accounts, &derived)
}

/// A shutdown cannot be repeated: once one has succeeded, the same instruction
/// on the accounts it left is refused with `VaultAlreadyClosing`. The address
/// derived for the vault is the same both times, since a shutdown changes
/// neither the share mint nor the bump.
pub proof fn lemma_shutdown_is_irreversible(accounts: ShutdownVault, program: ProgramInfo)
    requires
        accounts.shutdown_error(accounts.derived_vault_address(program)) is None,
    ensures
        accounts.shut_down().derived_vault_address(program) == accounts.derived_vault_address(program),
        accounts.shut_down().shutdown_error(accounts.shut_down().derived_vault_address(program))
            == Some(VaultError::VaultAlreadyClosing),
        accounts.shut_down().vault.state.closing,
{
}

/// A vault that is winding down stays so: every shutdown of it is refused, and
/// a refusal changes nothing.
pub proof fn lemma_closing_is_permanent(accounts: ShutdownVault, derived: Option<Seq<u8>>)
    requires
        accounts.vault.state.closing,
    ensures
        accounts.shutdown_error(derived) is Some,
{
}

/// Only the vault's authority, with its signature, can shut it down, and only while the vault is
/// neither paused nor winding down and its redemptions are not paused.
pub proof fn lemma_shutdown_requires_authority(accounts: ShutdownVault, derived: Option<Seq<u8>>)
    requires
        accounts.shutdown_error(derived) is None,
    ensures
        accounts.authority.is_signer,
        accounts.authority.address@ == accounts.vault.state.authority@,
        derived == Some(accounts.vault.address@),
        !accounts.vault.state.paused,
        !accounts.vault.state.closing,
        redemptions_paused_error(accounts.vault.extensions.pausable_redemptions) is None,
{
}

/// What the shutdown itself decides, on accounts whose requirements hold: it
/// succeeds exactly when the vault is not paused, not already winding down and
/// its redemptions are not paused; otherwise the first failing condition, in the
/// order paused, already closing, redemptions paused, gives the error, and a
/// switch that could not be read gives the read's own error. With `handler`'s
/// contract, a refusal changes nothing and a success changes only `closing`.
pub proof fn lemma_shutdown_handler_outcome(accounts: ShutdownVault)
    ensures
        (accounts.handler_error() is None) == (!accounts.vault.state.paused && !accounts.vault.state.closing
            && (accounts.vault.extensions.pausable_redemptions == Ok::<Option<bool>, VaultError>(None)
            || accounts.vault.extensions.pausable_redemptions == Ok::<Option<bool>, VaultError>(Some(false)))),
        accounts.vault.state.paused ==> accounts.handler_error() == Some(VaultError::PausedVault),
        !accounts.vault.state.paused && accounts.vault.state.closing ==> accounts.handler_error() == Some(
            VaultError::VaultAlreadyClosing,
        ),
        !accounts.vault.state.paused && !accounts.vault.state.closing
            && accounts.vault.extensions.pausable_redemptions == Ok::<Option<bool>, VaultError>(Some(true))
            ==> accounts.handler_error() == Some(VaultError::RedemptionsPaused),
        !accounts.vault.state.paused && !accounts.vault.state.closing
            && accounts.vault.extensions.pausable_redemptions is Err ==> accounts.handler_error() == Some(
            accounts.vault.extensions.pausable_redemptions->Err_0,
        ),
        accounts.shut_down().vault.state == (VaultState { closing: true, ..accounts.vault.state }),
        accounts.shut_down().vault.extensions == accounts.vault.extensions,
        accounts.shut_down().authority == accounts.authority,
        accounts.shut_down().share_mint == accounts.share_mint,
{
}

/// A shutdown succeeds exactly when the authority signed and is the one the
/// vault names, the vault sits at the derived address and is writable, and the
/// vault is neither paused nor winding down and its redemptions are not paused.
/// Nothing else is asked: outstanding shares or pending requests, for example,
/// do not stop a shutdown.
pub proof fn lemma_shutdown_succeeds_iff(accounts: ShutdownVault, derived: Option<Seq<u8>>)
    ensures
        (accounts.shutdown_error(derived) is None) == (accounts.authority.is_signer
            && accounts.authority.address@ == accounts.vault.state.authority@
            && derived == Some(accounts.vault.address@)
            && accounts.vault.is_writable
            && !accounts.vault.state.paused
            && !accounts.vault.state.closing
            && (accounts.vault.extensions.pausable_redemptions == Ok::<Option<bool>, VaultError>(None)
            || accounts.vault.extensions.pausable_redemptions == Ok::<Option<bool>, VaultError>(Some(false)))),
{
}

} // verus!
