use anchor_lang::prelude::Pubkey;
use async_vault::address::{vault_address, vault_signer_seeds, Address};
use async_vault::error::VaultError;
use async_vault::instructions::close_vault::{close_vault, close_vault_at, handler, ClosePlan, CloseVault};
use async_vault::state::{
    MintAccount, ProgramInfo, QueueProgress, SignerAccount, TokenAccount, VaultAccount,
    VaultExtensions, VaultState,
};
use async_vault::token::TokenCall;
use std::collections::HashMap;

const SEED: &[u8] = b"vault_config";

fn key(n: u8) -> Address {
    Address::new([n; 32])
}

fn spl_token() -> Address {
    key(201)
}

fn token_2022() -> Address {
    key(202)
}

fn program() -> ProgramInfo {
    ProgramInfo { program_id: key(200), vault_config_seed: SEED.to_vec() }
}

fn derive_vault(share_mint: &Address) -> (Address, u8) {
    let (pda, bump) = Pubkey::find_program_address(
        &[SEED, &share_mint.bytes],
        &Pubkey::new_from_array(program().program_id.bytes),
    );
    (Address::new(pda.to_bytes()), bump)
}

fn token_account(address: Address, program: Address, mint: Address, owner: Address, amount: u64) -> TokenAccount {
    TokenAccount { address, is_writable: true, token_program: program, mint, owner, amount }
}

fn setup_vault_with_token_programs(asset_token_program: Address, share_token_program: Address) -> CloseVault {
    let authority = key(1);
    let asset_mint = key(2);
    let share_mint = key(3);
    let (vault, bump) = derive_vault(&share_mint);
    let reserve = key(4);
    let pending_vault = key(5);
    let authority_ata = key(6);
    CloseVault {
        authority: SignerAccount { address: authority, is_signer: true, is_writable: true },
        asset_mint: MintAccount { address: asset_mint, is_writable: false, supply: 1_000_000_000, decimals: 6 },
        share_mint: MintAccount { address: share_mint, is_writable: true, supply: 0, decimals: 6 },
        vault: VaultAccount {
            address: vault,
            is_writable: true,
            state: VaultState {
                authority,
                bump,
                vault_token_account: reserve,
                pending_vault,
                pending_async_requests: 0,
                paused: false,
                closing: false,
            },
            extensions: VaultExtensions {
                subscription_queue: Ok(None),
                redemption_queue: Ok(None),
                pausable_redemptions: Ok(None),
            },
        },
        reserve: token_account(reserve, asset_token_program, asset_mint, vault, 0),
        pending_vault: token_account(pending_vault, asset_token_program, asset_mint, vault, 0),
        authority_asset_token_account: token_account(authority_ata, asset_token_program, asset_mint, authority, 0),
        asset_token_program,
        share_token_program,
    }
}

fn setup_vault() -> CloseVault {
    setup_vault_with_token_programs(spl_token(), spl_token())
}

/// Runs a plan's calls on token balances as the token program would, failing
/// where a call would fail.
fn run_plan(balances: &mut HashMap<Address, u64>, plan: &ClosePlan) -> Result<(), String> {
    for call in plan.calls.iter() {
        match call {
            TokenCall::TransferChecked { from, to, amount, .. } => {
                let available = *balances.get(from).ok_or("missing source")?;
                let held = *balances.get(to).ok_or("missing destination")?;
                if available < *amount {
                    return Err("insufficient funds".to_string());
                }
                balances.insert(*from, available - amount);
                balances.insert(*to, held.checked_add(*amount).ok_or("overflow")?);
            }
            TokenCall::CloseAccount { account, .. } => {
                if balances.get(account) != Some(&0) {
                    return Err("non-empty account".to_string());
                }
                balances.remove(account);
            }
            TokenCall::SetMintTokensAuthority { .. } => {}
        }
    }
    Ok(())
}

fn balances_of(accounts: &CloseVault, authority_balance: u64) -> HashMap<Address, u64> {
    let mut balances = HashMap::new();
    balances.insert(accounts.reserve.address, accounts.reserve.amount);
    balances.insert(accounts.pending_vault.address, accounts.pending_vault.amount);
    balances.insert(accounts.authority_asset_token_account.address, authority_balance);
    balances
}

fn close_vault_without_pausable_subscriptions(asset_token_program: Address, share_token_program: Address) {
    let accounts = setup_vault_with_token_programs(asset_token_program, share_token_program);
    let plan = close_vault(&program(), &accounts).expect("close vault should succeed");

    let expected = vec![
        TokenCall::CloseAccount {
            token_program: asset_token_program,
            account: accounts.reserve.address,
            destination: accounts.authority.address,
            authority: accounts.vault.address,
        },
        TokenCall::CloseAccount {
            token_program: asset_token_program,
            account: accounts.pending_vault.address,
            destination: accounts.authority.address,
            authority: accounts.vault.address,
        },
        TokenCall::SetMintTokensAuthority {
            token_program: share_token_program,
            mint: accounts.share_mint.address,
            current_authority: accounts.vault.address,
            new_authority: accounts.authority.address,
        },
    ];
    assert_eq!(plan.calls, expected);
    assert_eq!(plan.rent_destination, accounts.authority.address);

    let mut balances = balances_of(&accounts, 0);
    run_plan(&mut balances, &plan).expect("the plan should run");
    assert!(!balances.contains_key(&accounts.reserve.address));
    assert!(!balances.contains_key(&accounts.pending_vault.address));
}

#[test]
fn close_vault_closes_accounts_spl_token_asset_and_share_mint() {
    close_vault_without_pausable_subscriptions(spl_token(), spl_token());
}

#[test]
fn close_vault_closes_accounts_token_2022_asset_and_share_mint() {
    close_vault_without_pausable_subscriptions(token_2022(), token_2022());
}

#[test]
fn close_vault_closes_accounts_spl_token_asset_and_token_2022_share_mint() {
    close_vault_without_pausable_subscriptions(spl_token(), token_2022());
}

#[test]
fn close_vault_closes_accounts_token_2022_asset_and_spl_token_share_mint() {
    close_vault_without_pausable_subscriptions(token_2022(), spl_token());
}

fn close_vault_rejects_unsatisfied_core_invariants(pending_requests: u16, share_supply: u64, expected_error: VaultError) {
    let mut accounts = setup_vault();
    accounts.vault.state.pending_async_requests = pending_requests;
    accounts.share_mint.supply = share_supply;
    let err = close_vault(&program(), &accounts).unwrap_err();
    assert_eq!(err, expected_error);
}

#[test]
fn close_vault_rejects_pending_request() {
    close_vault_rejects_unsatisfied_core_invariants(1, 0, VaultError::VaultHasPendingAsyncRequests);
}

#[test]
fn close_vault_rejects_outstanding_share_supply() {
    close_vault_rejects_unsatisfied_core_invariants(0, 1, VaultError::ShareMintSupplyMustBeZeroBeforeClosing);
}

#[test]
fn close_vault_rejects_claimable_redemption_until_user_claims() {
    // An approved redemption of one share awaits its claim; the reserve holds the asset.
    let mut accounts = setup_vault();
    accounts.vault.state.pending_async_requests = 1;
    accounts.reserve.amount = 1;
    let err = close_vault(&program(), &accounts).unwrap_err();
    assert_eq!(err, VaultError::VaultHasPendingAsyncRequests);

    // The user claims: the request is settled and the asset has left.
    accounts.vault.state.pending_async_requests = 0;
    accounts.reserve.amount = 0;
    close_vault(&program(), &accounts).expect("close should succeed after the user claims");
}

#[test]
fn close_vault_sweeps_rounding_dust_after_a_full_deposit_and_redeem_cycle() {
    // After depositing 1_000_000 at a NAV of 3 and redeeming 333_333 shares,
    // one unit of the asset is left in the reserve and nothing is owed.
    let mut accounts = setup_vault();
    accounts.reserve.amount = 1;
    accounts.pending_vault.amount = 0;
    let authority_balance_before = 5;
    let plan = close_vault(&program(), &accounts)
        .expect("close should sweep rounding dust after all user liabilities are settled");
    let mut balances = balances_of(&accounts, authority_balance_before);
    run_plan(&mut balances, &plan).expect("the plan should run");
    let authority_balance_after = balances[&accounts.authority_asset_token_account.address];
    assert_eq!(authority_balance_after, authority_balance_before + 1);
}

fn close_vault_sweeps_unaccounted_asset_dust_to_authority(asset_token_program: Address, share_token_program: Address) {
    let mut accounts = setup_vault_with_token_programs(asset_token_program, share_token_program);
    accounts.reserve.amount = 1;
    accounts.pending_vault.amount = 2;
    let authority_balance_before = 10;
    let plan = close_vault(&program(), &accounts)
        .expect("close vault should sweep unaccounted dust before closing token accounts");
    assert_eq!(plan.calls.len(), 5);
    assert_eq!(
        plan.calls[0],
        TokenCall::TransferChecked {
            token_program: asset_token_program,
            from: accounts.reserve.address,
            mint: accounts.asset_mint.address,
            to: accounts.authority_asset_token_account.address,
            authority: accounts.vault.address,
            amount: 1,
            decimals: 6,
        }
    );
    let mut balances = balances_of(&accounts, authority_balance_before);
    run_plan(&mut balances, &plan).expect("the plan should run");
    let authority_balance_after = balances[&accounts.authority_asset_token_account.address];
    assert_eq!(authority_balance_after, authority_balance_before + 3);
    assert!(!balances.contains_key(&accounts.reserve.address));
    assert!(!balances.contains_key(&accounts.pending_vault.address));
}

#[test]
fn close_vault_sweeps_unaccounted_asset_dust_spl_token() {
    close_vault_sweeps_unaccounted_asset_dust_to_authority(spl_token(), spl_token());
}

#[test]
fn close_vault_sweeps_unaccounted_asset_dust_token_2022() {
    close_vault_sweeps_unaccounted_asset_dust_to_authority(token_2022(), token_2022());
}

#[test]
fn close_vault_rejects_an_unauthorized_authority() {
    let mut accounts = setup_vault();
    let unauthorized = key(9);
    accounts.authority.address = unauthorized;
    accounts.authority_asset_token_account =
        token_account(key(10), spl_token(), accounts.asset_mint.address, unauthorized, 0);
    let err = close_vault(&program(), &accounts).unwrap_err();
    assert_eq!(err, VaultError::UnauthorizedSigner);
}

fn close_vault_rejects_unprocessed_queue_tombstones(subscription_queue: bool, expected_error: VaultError) {
    let mut accounts = setup_vault();
    // One request was enqueued and cancelled: its tombstone is still unprocessed.
    let queue = Ok(Some(QueueProgress { last_processed: 0, total: 1 }));
    if subscription_queue {
        accounts.vault.extensions.subscription_queue = queue;
    } else {
        accounts.vault.extensions.redemption_queue = queue;
    }
    let err = close_vault(&program(), &accounts).unwrap_err();
    assert_eq!(err, expected_error);
}

#[test]
fn close_vault_rejects_subscription_queue_tombstone() {
    close_vault_rejects_unprocessed_queue_tombstones(true, VaultError::SubscriptionQueueNotDrained);
}

#[test]
fn close_vault_rejects_redemption_queue_tombstone() {
    close_vault_rejects_unprocessed_queue_tombstones(false, VaultError::RedemptionQueueNotDrained);
}

#[test]
fn close_vault_accepts_drained_queues() {
    let mut accounts = setup_vault();
    accounts.vault.extensions.subscription_queue = Ok(Some(QueueProgress { last_processed: 4, total: 4 }));
    accounts.vault.extensions.redemption_queue = Ok(Some(QueueProgress { last_processed: 2, total: 2 }));
    assert!(close_vault(&program(), &accounts).is_ok());
}

#[test]
fn close_vault_reports_an_unreadable_queue() {
    let mut accounts = setup_vault();
    accounts.vault.extensions.redemption_queue = Err(VaultError::AccountBorrowFailed);
    assert_eq!(close_vault(&program(), &accounts).unwrap_err(), VaultError::AccountBorrowFailed);
    accounts.vault.extensions.redemption_queue = Ok(None);
    accounts.vault.extensions.subscription_queue = Err(VaultError::ExtensionReadFailed(3003));
    assert_eq!(close_vault(&program(), &accounts).unwrap_err(), VaultError::ExtensionReadFailed(3003));
}

#[test]
fn close_vault_checks_pending_requests_before_supply_and_queues() {
    let mut accounts = setup_vault();
    accounts.vault.state.pending_async_requests = 2;
    accounts.share_mint.supply = 7;
    accounts.vault.extensions.subscription_queue = Ok(Some(QueueProgress { last_processed: 0, total: 1 }));
    assert_eq!(close_vault(&program(), &accounts).unwrap_err(), VaultError::VaultHasPendingAsyncRequests);
    accounts.vault.state.pending_async_requests = 0;
    assert_eq!(close_vault(&program(), &accounts).unwrap_err(), VaultError::ShareMintSupplyMustBeZeroBeforeClosing);
    accounts.share_mint.supply = 0;
    assert_eq!(close_vault(&program(), &accounts).unwrap_err(), VaultError::SubscriptionQueueNotDrained);
}

#[test]
fn close_vault_rejects_a_vault_at_another_address() {
    let mut accounts = setup_vault();
    accounts.vault.address = key(77);
    accounts.reserve.owner = key(77);
    accounts.pending_vault.owner = key(77);
    assert_eq!(close_vault(&program(), &accounts).unwrap_err(), VaultError::ConstraintSeeds);
}

#[test]
fn close_vault_rejects_a_refused_derivation() {
    let accounts = setup_vault();
    let long_seed = ProgramInfo { program_id: key(200), vault_config_seed: vec![7u8; 33] };
    assert_eq!(close_vault(&long_seed, &accounts).unwrap_err(), VaultError::ConstraintSeeds);
}

#[test]
fn close_vault_rejects_read_only_accounts() {
    let mut accounts = setup_vault();
    accounts.authority.is_writable = false;
    assert_eq!(close_vault(&program(), &accounts).unwrap_err(), VaultError::ConstraintMut);
    let mut accounts = setup_vault();
    accounts.vault.is_writable = false;
    assert_eq!(close_vault(&program(), &accounts).unwrap_err(), VaultError::ConstraintMut);
    let mut accounts = setup_vault();
    accounts.pending_vault.is_writable = false;
    assert_eq!(close_vault(&program(), &accounts).unwrap_err(), VaultError::ConstraintMut);
}

#[test]
fn close_vault_rejects_another_reserve() {
    let mut accounts = setup_vault();
    accounts.reserve.address = key(50);
    assert_eq!(close_vault(&program(), &accounts).unwrap_err(), VaultError::ConstraintRaw);
}

#[test]
fn close_vault_rejects_another_pending_vault() {
    let mut accounts = setup_vault();
    accounts.pending_vault.address = key(51);
    assert_eq!(close_vault(&program(), &accounts).unwrap_err(), VaultError::InvalidPendingVault);
}

#[test]
fn close_vault_rejects_token_accounts_that_break_their_constraints() {
    let mut accounts = setup_vault();
    accounts.reserve.owner = key(60);
    assert_eq!(close_vault(&program(), &accounts).unwrap_err(), VaultError::ConstraintTokenOwner);
    let mut accounts = setup_vault();
    accounts.pending_vault.mint = key(61);
    assert_eq!(close_vault(&program(), &accounts).unwrap_err(), VaultError::ConstraintTokenMint);
    let mut accounts = setup_vault();
    accounts.authority_asset_token_account.token_program = token_2022();
    assert_eq!(close_vault(&program(), &accounts).unwrap_err(), VaultError::ConstraintTokenTokenProgram);
}

#[test]
fn close_vault_rejects_a_duplicated_writable_account() {
    let mut accounts = setup_vault();
    accounts.authority_asset_token_account.address = accounts.reserve.address;
    assert_eq!(close_vault(&program(), &accounts).unwrap_err(), VaultError::ConstraintDuplicateMutableAccount);
}

#[test]
fn close_vault_rejects_closing_the_vault_into_itself() {
    let mut accounts = setup_vault();
    let vault = accounts.vault.address;
    accounts.authority.address = vault;
    accounts.vault.state.authority = vault;
    accounts.authority_asset_token_account.owner = vault;
    let derived = Some(vault);
    assert_eq!(close_vault_at(&program(), &accounts, &derived).unwrap_err(), VaultError::ConstraintClose);
}

#[test]
fn close_vault_handler_signs_with_the_vault_seeds() {
    let accounts = setup_vault();
    let plan = handler(&program(), &accounts).unwrap();
    let seeds = vault_signer_seeds(&program().vault_config_seed, &accounts.share_mint.address, accounts.vault.state.bump);
    assert_eq!(plan.signer_seeds, seeds);
    assert_eq!(plan.signer_seeds, vec![SEED.to_vec(), vec![3u8; 32], vec![accounts.vault.state.bump]]);
}

#[test]
fn vault_address_is_the_program_derived_address() {
    let share_mint = key(3);
    let (expected, bump) = derive_vault(&share_mint);
    let derived = vault_address(&SEED.to_vec(), &share_mint, bump, &program().program_id);
    assert_eq!(derived, Some(expected));
    assert_ne!(expected, share_mint);
    assert_ne!(expected, program().program_id);
}

#[test]
fn close_vault_requires_the_authority_signature() {
    let mut accounts = setup_vault();
    accounts.authority.is_signer = false;
    // Checked before every constraint: even a duplicated account is reported later.
    accounts.authority_asset_token_account.address = accounts.reserve.address;
    assert_eq!(close_vault(&program(), &accounts).unwrap_err(), VaultError::AccountNotSigner);
}
