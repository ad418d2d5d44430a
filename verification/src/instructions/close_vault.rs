use crate::address::{
    address_option_view, all_distinct, pairwise_distinct, addresses_view, program_derived_address,
    seeds_view, vault_address, vault_seeds, vault_signer_seeds, Address,
};
use crate::error::{as_result, check, or_else, VaultError};
use crate::state::{
    ExtensionRead, MintAccount, ProgramInfo, QueueProgress, SignerAccount, TokenAccount,
    VaultAccount,
};
use crate::token::{apply_token_call, apply_token_calls, lemma_apply_token_calls_append, Ledger, TokenCall};
use vstd::prelude::*;

verus! {

/// The accounts of the `close_vault` instruction, as read from the chain.
#[derive(Clone, Copy, Debug)]
pub struct CloseVault {
    /// The vault's authority, signing; receives everything that is swept and closed.
    pub authority: SignerAccount,
    /// The mint of the vault's asset.
    pub asset_mint: MintAccount,
    /// The mint of the vault's shares.
    pub share_mint: MintAccount,
    /// The vault's configuration account, closed at the end.
    pub vault: VaultAccount,
    /// The reserve token account.
    pub reserve: TokenAccount,
    /// The token account of deposits awaiting approval.
    pub pending_vault: TokenAccount,
    /// The authority's token account for the asset.
    pub authority_asset_token_account: TokenAccount,
    /// The token program of the asset.
    pub asset_token_program: Address,
    /// The token program of the shares.
    pub share_token_program: Address,
}

/// What a successful close does.
#[derive(Clone, Debug)]
pub struct ClosePlan {
    /// The seeds with which the vault's configuration account signs every call.
    pub signer_seeds: Vec<Vec<u8>>,
    /// The token-program calls, in the order they are made.
    pub calls: Vec<TokenCall>,
    /// Where the rent of the configuration account goes when it is closed, last.
    pub rent_destination: Address,
}

/// The outcome of a queue check: the error of a failed read, `error` where the
/// queue holds entries it has not processed, and nothing where it has none or
/// the vault keeps no such queue.
pub open spec fn queue_error(queue: ExtensionRead<QueueProgress>, error: VaultError) -> Option<VaultError> {
    match queue {
        Err(e) => Some(e),
        Ok(Some(q)) => check(q.last_processed == q.total, error),
        Ok(None) => None,
    }
}

/// A possibly absent call as a sequence of at most one call.
pub open spec fn call_seq(call: Option<TokenCall>) -> Seq<TokenCall> {
    match call {
        Some(c) => seq![c],
        None => seq![],
    }
}

impl CloseVault {
    /// The keys of the writable accounts that are written back at the end; no
    /// key may occur twice among them.
    pub open spec fn mutable_keys(self) -> Seq<Seq<u8>> {
        seq![
            self.share_mint.address@,
            self.vault.address@,
            self.reserve.address@,
            self.pending_vault.address@,
            self.authority_asset_token_account.address@,
        ]
    }

    /// The constraints on the configuration account, in order: its address is
    /// the one derived (`derived`), it is writable, it names the signer as its
    /// authority, and it is not closed into itself.
    pub open spec fn vault_error(self, derived: Option<Seq<u8>>) -> Option<VaultError> {
        or_else(
            self.vault.seeds_error(derived),
            or_else(
                check(self.vault.is_writable, VaultError::ConstraintMut),
                or_else(
                    check(self.authority.address@ == self.vault.state.authority@, VaultError::UnauthorizedSigner),
                    check(self.vault.address@ != self.authority.address@, VaultError::ConstraintClose),
                ),
            ),
        )
    }

    /// The constraints on the reserve: writable, the one the vault records, and
    /// a token account of the asset owned by the vault under the asset's program.
    pub open spec fn reserve_error(self) -> Option<VaultError> {
        or_else(
            check(self.reserve.is_writable, VaultError::ConstraintMut),
            or_else(
                check(self.vault.state.vault_token_account@ == self.reserve.address@, VaultError::ConstraintRaw),
                self.reserve.constraint_error(self.vault.address@, self.asset_mint.address@, self.asset_token_program@),
            ),
        )
    }

    /// The constraints on the pending-deposit account, as for the reserve but
    /// with its own error where it is not the account the vault records.
    pub open spec fn pending_vault_error(self) -> Option<VaultError> {
        or_else(
            check(self.pending_vault.is_writable, VaultError::ConstraintMut),
            or_else(
                check(self.vault.state.pending_vault@ == self.pending_vault.address@, VaultError::InvalidPendingVault),
                self.pending_vault.constraint_error(self.vault.address@, self.asset_mint.address@, self.asset_token_program@),
            ),
        )
    }

    /// The constraints on the authority's asset account: writable, and a token
    /// account of the asset owned by the authority under the asset's program.
    pub open spec fn authority_account_error(self) -> Option<VaultError> {
        or_else(
            check(self.authority_asset_token_account.is_writable, VaultError::ConstraintMut),
            self.authority_asset_token_account.constraint_error(
                self.authority.address@,
                self.asset_mint.address@,
                self.asset_token_program@,
            ),
        )
    }

    /// All account requirements, in the order they are checked; `derived` is
    /// the address derived for the configuration account. The authority's
    /// signature is checked when the accounts are loaded, before any constraint.
    pub open spec fn account_error(self, derived: Option<Seq<u8>>) -> Option<VaultError> {
        or_else(
            self.authority.signer_error(),
            or_else(
            check(pairwise_distinct(self.mutable_keys()), VaultError::ConstraintDuplicateMutableAccount),
            or_else(
                check(self.authority.is_writable, VaultError::ConstraintMut),
                or_else(
                    check(self.share_mint.is_writable, VaultError::ConstraintMut),
                    or_else(
                        self.vault_error(derived),
                        or_else(
                            self.reserve_error(),
                            or_else(self.pending_vault_error(), self.authority_account_error()),
                        ),
                    ),
                ),
            ),
            ),
        )
    }

    /// The conditions for closing, in order: no request is pending, no share is
    /// outstanding, and both request queues are drained.
    pub open spec fn handler_error(self) -> Option<VaultError> {
        or_else(
            check(self.vault.state.pending_async_requests == 0, VaultError::VaultHasPendingAsyncRequests),
            or_else(
                check(self.share_mint.supply == 0, VaultError::ShareMintSupplyMustBeZeroBeforeClosing),
                or_else(
                    queue_error(self.vault.extensions.subscription_queue, VaultError::SubscriptionQueueNotDrained),
                    queue_error(self.vault.extensions.redemption_queue, VaultError::RedemptionQueueNotDrained),
                ),
            ),
        )
    }

    /// The whole instruction's outcome: the account constraints, then the
    /// conditions for closing.
    pub open spec fn close_error(self, derived: Option<Seq<u8>>) -> Option<VaultError> {
        or_else(self.account_error(derived), self.handler_error())
    }

    /// The address derived for the configuration account under `program`.
    pub open spec fn derived_vault_address(self, program: ProgramInfo) -> Option<Seq<u8>> {
        program_derived_address(
            vault_seeds(program.vault_config_seed@, self.share_mint.address@, self.vault.state.bump),
            program.program_id@,
        )
    }

    /// The transfer that moves `amount` of the asset from `account` to the
    /// authority's asset account; none for a zero amount.
    pub open spec fn sweep_call(self, account: TokenAccount, amount: u64) -> Option<TokenCall> {
        if amount == 0 {
            None
        } else {
            Some(
                TokenCall::TransferChecked {
                    token_program: self.asset_token_program,
                    from: account.address,
                    mint: self.asset_mint.address,
                    to: self.authority_asset_token_account.address,
                    authority: self.vault.address,
                    amount,
                    decimals: self.asset_mint.decimals,
                },
            )
        }
    }

    /// The call that closes the vault's token account `account` into the authority.
    pub open spec fn close_call(self, account: TokenAccount) -> TokenCall {
        TokenCall::CloseAccount {
            token_program: self.asset_token_program,
            account: account.address,
            destination: self.authority.address,
            authority: self.vault.address,
        }
    }

    /// The call that hands the authority to mint shares back to the authority.
    pub open spec fn return_authority_call(self) -> TokenCall {
        TokenCall::SetMintTokensAuthority {
            token_program: self.share_token_program,
            mint: self.share_mint.address,
            current_authority: self.vault.address,
            new_authority: self.authority.address,
        }
    }

    /// The calls of a close, in order: sweep the reserve and the pending-deposit
    /// account into the authority's asset account, close both, and return the
    /// share mint's authority.
    pub open spec fn close_calls(self) -> Seq<TokenCall> {
        call_seq(self.sweep_call(self.reserve, self.reserve.amount))
            + call_seq(self.sweep_call(self.pending_vault, self.pending_vault.amount))
            + seq![
            self.close_call(self.reserve),
            self.close_call(self.pending_vault),
            self.return_authority_call(),
        ]
    }

    /// Whether `plan` is the close of these accounts under `program`.
    pub open spec fn is_close_plan(self, program: ProgramInfo, plan: ClosePlan) -> bool {
        &&& plan.calls@ == self.close_calls()
        &&& seeds_view(plan.signer_seeds@) == vault_seeds(
            program.vault_config_seed@,
            self.share_mint.address@,
            self.vault.state.bump,
        )
        &&& plan.rent_destination == self.authority.address
    }

    /// Checks the configuration account's constraints against the derived address.
    fn check_vault(&self, derived: &Option<Address>) -> (r: Result<(), VaultError>)
        ensures
            r == as_result(self.vault_error(address_option_view(*derived))),
    {
        self.vault.check_seeds(derived)?;
        if !self.vault.is_writable {
            return Err(VaultError::ConstraintMut);
        }
        if !self.authority.address.same(&self.vault.state.authority) {
            return Err(VaultError::UnauthorizedSigner);
        }
        if self.vault.address.same(&self.authority.address) {
            return Err(VaultError::ConstraintClose);
        }
        Ok(())
    }

    /// Checks the reserve's constraints.
    fn check_reserve(&self) -> (r: Result<(), VaultError>)
        ensures
            r == as_result(self.reserve_error()),
    {
        if !self.reserve.is_writable {
            return Err(VaultError::ConstraintMut);
        }
        if !self.vault.state.vault_token_account.same(&self.reserve.address) {
            return Err(VaultError::ConstraintRaw);
        }
        self.reserve.check_token_constraints(&self.vault.address, &self.asset_mint.address, &self.asset_token_program)
    }

    /// Checks the pending-deposit account's constraints.
    fn check_pending_vault(&self) -> (r: Result<(), VaultError>)
        ensures
            r == as_result(self.pending_vault_error()),
    {
        if !self.pending_vault.is_writable {
            return Err(VaultError::ConstraintMut);
        }
        if !self.vault.state.pending_vault.same(&self.pending_vault.address) {
            return Err(VaultError::InvalidPendingVault);
        }
        self.pending_vault.check_token_constraints(
            &self.vault.address,
            &self.asset_mint.address,
            &self.asset_token_program,
        )
    }

    /// Checks the constraints of the authority's asset account.
    fn check_authority_account(&self) -> (r: Result<(), VaultError>)
        ensures
            r == as_result(self.authority_account_error()),
    {
        if !self.authority_asset_token_account.is_writable {
            return Err(VaultError::ConstraintMut);
        }
        self.authority_asset_token_account.check_token_constraints(
            &self.authority.address,
            &self.asset_mint.address,
            &self.asset_token_program,
        )
    }

    /// Checks every account constraint, in order, given the address derived for
    /// the configuration account (`None` where the derivation was refused).
    pub fn check_accounts(&self, derived: &Option<Address>) -> (r: Result<(), VaultError>)
        ensures
            r == as_result(self.account_error(address_option_view(*derived))),
    {
        self.authority.check_signer()?;
        let mut keys: Vec<Address> = Vec::new();
        keys.push(self.share_mint.address);
        keys.push(self.vault.address);
        keys.push(self.reserve.address);
        keys.push(self.pending_vault.address);
        keys.push(self.authority_asset_token_account.address);
        assert(addresses_view(keys@) =~= self.mutable_keys());
        if !all_distinct(&keys) {
            return Err(VaultError::ConstraintDuplicateMutableAccount);
        }
        if !self.authority.is_writable {
            return Err(VaultError::ConstraintMut);
        }
        if !self.share_mint.is_writable {
            return Err(VaultError::ConstraintMut);
        }
        self.check_vault(derived)?;
        self.check_reserve()?;
        self.check_pending_vault()?;
        self.check_authority_account()
    }

    /// Checks every account constraint under `program`, deriving the address of
    /// the configuration account from its seeds.
    pub fn validate(&self, program: &ProgramInfo) -> (r: Result<(), VaultError>)
        ensures
            r == as_result(self.account_error(self.derived_vault_address(*program))),
    {
        let derived = vault_address(
            &program.vault_config_seed,
            &self.share_mint.address,
            self.vault.state.bump,
            &program.program_id,
        );
        self.check_accounts(&derived)
    }

    /// Fails with `error` where `queue` holds unprocessed entries, and with the
    /// read's own error where the queue could not be read.
    pub fn assert_queue_drained(&self, queue: &ExtensionRead<QueueProgress>, error: VaultError) -> (r: Result<(), VaultError>)
        ensures
            r == as_result(queue_error(*queue, error)),
    {
        match queue {
            Err(e) => Err(*e),
            Ok(Some(q)) => {
                if q.last_processed != q.total {
                    Err(error)
                } else {
                    Ok(())
                }
            },
            Ok(None) => Ok(()),
        }
    }

    /// The call that closes the vault's token account `account` into the authority.
    pub fn close_asset_account(&self, account: &TokenAccount) -> (c: TokenCall)
        ensures
            c == self.close_call(*account),
    {
        TokenCall::CloseAccount {
            token_program: self.asset_token_program,
            account: account.address,
            destination: self.authority.address,
            authority: self.vault.address,
        }
    }

    /// The transfer of `amount` of the asset from `account` to the authority's
    /// asset account; none where `amount` is zero.
    pub fn sweep_asset_account(&self, account: &TokenAccount, amount: u64) -> (c: Option<TokenCall>)
        ensures
            c == self.sweep_call(*account, amount),
    {
        if amount == 0 {
            return None;
        }
        Some(
            TokenCall::TransferChecked {
                token_program: self.asset_token_program,
                from: account.address,
                mint: self.asset_mint.address,
                to: self.authority_asset_token_account.address,
                authority: self.vault.address,
                amount,
                decimals: self.asset_mint.decimals,
            },
        )
    }

    /// The call that hands the authority to mint shares back to the authority.
    pub fn return_share_mint_authority(&self) -> (c: TokenCall)
        ensures
            c == self.return_authority_call(),
    {
        TokenCall::SetMintTokensAuthority {
            token_program: self.share_token_program,
            mint: self.share_mint.address,
            current_authority: self.vault.address,
            new_authority: self.authority.address,
        }
    }
}

/// The close itself, on accounts whose constraints hold: refuses while requests
/// are pending, shares are outstanding or a request queue is not drained, and
/// otherwise plans the sweep of both vault token accounts into the authority,
/// their closing and the return of the share mint's authority.
pub fn handler(program: &ProgramInfo, accounts: &CloseVault) -> (r: Result<ClosePlan, VaultError>)
    ensures
        match r {
            Ok(plan) => accounts.handler_error() is None && accounts.is_close_plan(*program, plan),
            Err(e) => accounts.handler_error() == Some(e),
        },
{
    if accounts.vault.state.pending_async_requests != 0 {
        return Err(VaultError::VaultHasPendingAsyncRequests);
    }
    if accounts.share_mint.supply != 0 {
        return Err(VaultError::ShareMintSupplyMustBeZeroBeforeClosing);
    }
    accounts.assert_queue_drained(
        &accounts.vault.extensions.subscription_queue,
        VaultError::SubscriptionQueueNotDrained,
    )?;
    accounts.assert_queue_drained(
        &accounts.vault.extensions.redemption_queue,
        VaultError::RedemptionQueueNotDrained,
    )?;

    let mut calls: Vec<TokenCall> = Vec::new();
    match accounts.sweep_asset_account(&accounts.reserve, accounts.reserve.amount) {
        Some(c) => calls.push(c),
        None => {},
    }
    match accounts.sweep_asset_account(&accounts.pending_vault, accounts.pending_vault.amount) {
        Some(c) => calls.push(c),
        None => {},
    }
    calls.push(accounts.close_asset_account(&accounts.reserve));
    calls.push(accounts.close_asset_account(&accounts.pending_vault));
    calls.push(accounts.return_share_mint_authority());
    assert(calls@ =~= accounts.close_calls());

    let signer_seeds = vault_signer_seeds(
        &program.vault_config_seed,
        &accounts.share_mint.address,
        accounts.vault.state.bump,
    );
    Ok(ClosePlan { signer_seeds, calls, rent_destination: accounts.authority.address })
}

/// The `close_vault` instruction given the address derived for the configuration
/// account (`None` where the derivation was refused): the account constraints,
/// then the close.
pub fn close_vault_at(program: &ProgramInfo, accounts: &CloseVault, derived: &Option<Address>) -> (r: Result<ClosePlan, VaultError>)
    ensures
        match r {
            Ok(plan) => accounts.close_error(address_option_view(*derived)) is None
                && accounts.is_close_plan(*program, plan),
            Err(e) => accounts.close_error(address_option_view(*derived)) == Some(e),
        },
{
    accounts.check_accounts(derived)?;
    handler(program, accounts)
}

/// The `close_vault` instruction: the account constraints, with the
/// configuration account's address derived from its seeds under `program`, then
/// the close.
pub fn close_vault(program: &ProgramInfo, accounts: &CloseVault) -> (r: Result<ClosePlan, VaultError>)
    ensures
        match r {
            Ok(plan) => accounts.close_error(accounts.derived_vault_address(*program)) is None
                && accounts.is_close_plan(*program, plan),
            Err(e) => accounts.close_error(accounts.derived_vault_address(*program)) == Some(e),
        },
{
    let derived = vault_address(
        &program.vault_config_seed,
        &accounts.share_mint.address,
        accounts.vault.state.bump,
        &program.program_id,
    );
    close_vault_at(program, accounts, &derived)
}


/// A close that passes every check moves the whole balance of the reserve and
/// of the pending-deposit account into the authority's asset account and leaves
/// both vault token accounts closed: run on a ledger that holds the balances the
/// accounts were read with, every call succeeds and nothing else changes. The
/// authority's account must be able to hold the sum.
pub proof fn lemma_close_sweeps_vault_balances(accounts: CloseVault, derived: Option<Seq<u8>>, ledger: Ledger)
    requires
        accounts.close_error(derived) is None,
        ledger.contains_key(accounts.reserve.address@),
        ledger[accounts.reserve.address@] == accounts.reserve.amount,
        ledger.contains_key(accounts.pending_vault.address@),
        ledger[accounts.pending_vault.address@] == accounts.pending_vault.amount,
        ledger.contains_key(accounts.authority_asset_token_account.address@),
        ledger[accounts.authority_asset_token_account.address@] + accounts.reserve.amount
            + accounts.pending_vault.amount <= u64::MAX,
    ensures
        apply_token_calls(ledger, accounts.close_calls()) == Some(
            ledger.remove(accounts.reserve.address@).remove(accounts.pending_vault.address@).insert(
                accounts.authority_asset_token_account.address@,
                (ledger[accounts.authority_asset_token_account.address@] + accounts.reserve.amount
                    + accounts.pending_vault.amount) as nat,
            ),
        ),
{
    let r = accounts.reserve.address@;
    let p = accounts.pending_vault.address@;
    let a = accounts.authority_asset_token_account.address@;
    let ra = accounts.reserve.amount;
    let pa = accounts.pending_vault.amount;
    let b = ledger[a];
    let keys = accounts.mutable_keys();
    assert(pairwise_distinct(keys));
    assert(keys[2] == r && keys[3] == p && keys[4] == a);
    assert(r != p && r != a && p != a);

    let sweep_r = call_seq(accounts.sweep_call(accounts.reserve, ra));
    let sweep_p = call_seq(accounts.sweep_call(accounts.pending_vault, pa));
    let tail = seq![
        accounts.close_call(accounts.reserve),
        accounts.close_call(accounts.pending_vault),
        accounts.return_authority_call(),
    ];
    assert(accounts.close_calls() == sweep_r + sweep_p + tail);
    lemma_apply_token_calls_append(ledger, sweep_r + sweep_p, tail);
    lemma_apply_token_calls_append(ledger, sweep_r, sweep_p);

    let l1 = ledger.insert(r, 0).insert(a, (b + ra) as nat);
    reveal_with_fuel(apply_token_calls, 4);
    if ra == 0 {
        assert(l1 =~= ledger);
    } else {
        assert(apply_token_call(ledger, sweep_r[0]) == Some(l1));
        assert(sweep_r.drop_first() =~= Seq::<TokenCall>::empty());
    }
    assert(apply_token_calls(ledger, sweep_r) == Some(l1));

    let l2 = ledger.insert(r, 0).insert(p, 0).insert(a, (b + ra + pa) as nat);
    if pa == 0 {
        assert(l2 =~= l1);
    } else {
        assert(l1[p] == pa);
        assert(l1[a] == b + ra);
        assert(apply_token_call(l1, sweep_p[0]) =~= Some(l1.insert(p, 0).insert(a, (b + ra + pa) as nat)));
        assert(l1.insert(p, 0).insert(a, (b + ra + pa) as nat) =~= l2);
        assert(sweep_p.drop_first() =~= Seq::<TokenCall>::empty());
    }
    assert(apply_token_calls(l1, sweep_p) == Some(l2));

    let l3 = l2.remove(r);
    let l4 = l3.remove(p);
    assert(apply_token_call(l2, tail[0]) == Some(l3));
    assert(apply_token_call(l3, tail[1]) == Some(l4));
    assert(apply_token_call(l4, tail[2]) == Some(l4));
    assert(tail.drop_first().drop_first().drop_first() =~= Seq::<TokenCall>::empty());
    assert(tail.drop_first()[0] == tail[1]);
    assert(tail.drop_first().drop_first()[0] == tail[2]);
    assert(apply_token_calls(l2, tail) == Some(l4));
    assert(l4 =~= ledger.remove(r).remove(p).insert(a, (b + ra + pa) as nat));
}

/// Whether a queue read leaves nothing to process: the vault keeps no such
/// queue, or every entry ever enqueued has been processed.
pub open spec fn queue_drained(queue: ExtensionRead<QueueProgress>) -> bool {
    queue == Ok::<Option<QueueProgress>, VaultError>(None)
        || (queue matches Ok(Some(q)) && q.last_processed == q.total)
}

impl CloseVault {
    /// The account requirements of a close, all together: the authority signed
    /// and is the one the vault names; the vault sits at the derived address and
    /// is not the authority; the reserve and pending-deposit account are the ones
    /// the vault records, hold the asset, are owned by the vault and belong to
    /// the asset's token program; the authority's asset account holds the asset,
    /// is owned by the authority and belongs to that program; every account that
    /// is written is writable, and no such account is passed twice.
    pub open spec fn accounts_valid(self, derived: Option<Seq<u8>>) -> bool {
        let asset = self.asset_mint.address@;
        let program = self.asset_token_program@;
        let vault = self.vault.address@;
        let authority = self.authority.address@;
        &&& self.authority.is_signer
        &&& self.authority.is_writable
        &&& self.share_mint.is_writable
        &&& self.vault.is_writable
        &&& self.reserve.is_writable
        &&& self.pending_vault.is_writable
        &&& self.authority_asset_token_account.is_writable
        &&& derived == Some(vault)
        &&& authority == self.vault.state.authority@
        &&& vault != authority
        &&& self.reserve.address@ == self.vault.state.vault_token_account@
        &&& self.pending_vault.address@ == self.vault.state.pending_vault@
        &&& self.reserve.owner@ == vault && self.reserve.mint@ == asset && self.reserve.token_program@ == program
        &&& self.pending_vault.owner@ == vault && self.pending_vault.mint@ == asset
            && self.pending_vault.token_program@ == program
        &&& self.authority_asset_token_account.owner@ == authority
            && self.authority_asset_token_account.mint@ == asset
            && self.authority_asset_token_account.token_program@ == program
        &&& self.share_mint.address@ != vault && self.share_mint.address@ != self.reserve.address@
        &&& self.share_mint.address@ != self.pending_vault.address@
        &&& self.share_mint.address@ != self.authority_asset_token_account.address@
        &&& vault != self.reserve.address@ && vault != self.pending_vault.address@
        &&& vault != self.authority_asset_token_account.address@
        &&& self.reserve.address@ != self.pending_vault.address@
        &&& self.reserve.address@ != self.authority_asset_token_account.address@
        &&& self.pending_vault.address@ != self.authority_asset_token_account.address@
    }

    /// Whether the vault owes nothing: no request is pending, no share is
    /// outstanding, and both request queues are drained.
    pub open spec fn settled(self) -> bool {
        &&& self.vault.state.pending_async_requests == 0
        &&& self.share_mint.supply == 0
        &&& queue_drained(self.vault.extensions.subscription_queue)
        &&& queue_drained(self.vault.extensions.redemption_queue)
    }
}

/// A close succeeds exactly when the accounts meet all their requirements and
/// the vault owes nothing. In particular it succeeds whatever else the vault
/// holds (a paused vault, for one, can be closed), and it never succeeds into an
/// asset account that the authority does not own.
pub proof fn lemma_close_succeeds_iff_valid_and_settled(accounts: CloseVault, derived: Option<Seq<u8>>)
    ensures
        (accounts.close_error(derived) is None) == (accounts.accounts_valid(derived) && accounts.settled()),
{
    let keys = accounts.mutable_keys();
    if accounts.accounts_valid(derived) {
        assert(pairwise_distinct(keys)) by {
            assert forall|i: int, j: int| 0 <= i < j < keys.len() implies keys[i] != keys[j] by {
                assert(keys.len() == 5);
            }
        }
    }
    if accounts.close_error(derived) is None {
        assert(pairwise_distinct(keys));
        assert(keys[0] != keys[1] && keys[0] != keys[2] && keys[0] != keys[3] && keys[0] != keys[4]);
        assert(keys[1] != keys[2] && keys[1] != keys[3] && keys[1] != keys[4]);
        assert(keys[2] != keys[3] && keys[2] != keys[4] && keys[3] != keys[4]);
    }
}

/// The calls of a close: one transfer for each vault token account that holds
/// anything, moving exactly its balance of the asset (through the asset's
/// token program, with the asset mint's decimals, signed by the vault) into the
/// authority's asset account; then both vault token accounts are closed into
/// the authority through the asset's token program; last, the authority to mint
/// shares goes back to the authority through the share mint's token program.
pub proof fn lemma_close_plan_calls(accounts: CloseVault)
    ensures
        ({
            let calls = accounts.close_calls();
            let transfers: int = (if accounts.reserve.amount > 0 { 1int } else { 0int })
                + (if accounts.pending_vault.amount > 0 { 1int } else { 0int });
            &&& calls.len() == transfers + 3
            &&& forall|i: int| 0 <= i < transfers ==> {
                &&& #[trigger] calls[i] is TransferChecked
                &&& calls[i]->TransferChecked_token_program == accounts.asset_token_program
                &&& calls[i]->TransferChecked_mint == accounts.asset_mint.address
                &&& calls[i]->TransferChecked_decimals == accounts.asset_mint.decimals
                &&& calls[i]->TransferChecked_to == accounts.authority_asset_token_account.address
                &&& calls[i]->TransferChecked_authority == accounts.vault.address
                &&& calls[i]->TransferChecked_amount > 0
            }
            &&& accounts.reserve.amount > 0 ==> calls[0]->TransferChecked_from == accounts.reserve.address
                && calls[0]->TransferChecked_amount == accounts.reserve.amount
            &&& accounts.pending_vault.amount > 0 ==> calls[transfers - 1]->TransferChecked_from
                == accounts.pending_vault.address && calls[transfers - 1]->TransferChecked_amount
                == accounts.pending_vault.amount
            &&& calls[transfers] == TokenCall::CloseAccount {
                token_program: accounts.asset_token_program,
                account: accounts.reserve.address,
                destination: accounts.authority.address,
                authority: accounts.vault.address,
            }
            &&& calls[transfers + 1] == TokenCall::CloseAccount {
                token_program: accounts.asset_token_program,
                account: accounts.pending_vault.address,
                destination: accounts.authority.address,
                authority: accounts.vault.address,
            }
            &&& calls[transfers + 2] == TokenCall::SetMintTokensAuthority {
                token_program: accounts.share_token_program,
                mint: accounts.share_mint.address,
                current_authority: accounts.vault.address,
                new_authority: accounts.authority.address,
            }
        }),
{
    let calls = accounts.close_calls();
    let sr = call_seq(accounts.sweep_call(accounts.reserve, accounts.reserve.amount));
    let sp = call_seq(accounts.sweep_call(accounts.pending_vault, accounts.pending_vault.amount));
    let transfers: int = (if accounts.reserve.amount > 0 { 1int } else { 0int })
        + (if accounts.pending_vault.amount > 0 { 1int } else { 0int });
    assert(sr.len() + sp.len() == transfers);
    assert forall|i: int| 0 <= i < transfers implies {
        &&& #[trigger] calls[i] is TransferChecked
        &&& calls[i]->TransferChecked_token_program == accounts.asset_token_program
        &&& calls[i]->TransferChecked_mint == accounts.asset_mint.address
        &&& calls[i]->TransferChecked_decimals == accounts.asset_mint.decimals
        &&& calls[i]->TransferChecked_to == accounts.authority_asset_token_account.address
        &&& calls[i]->TransferChecked_authority == accounts.vault.address
        &&& calls[i]->TransferChecked_amount > 0
    } by {
        if i < sr.len() {
            assert(calls[i] == sr[i]);
        } else {
            assert(calls[i] == sp[i - sr.len()]);
        }
    }
    if accounts.reserve.amount > 0 {
        assert(calls[0] == sr[0]);
    }
    if accounts.pending_vault.amount > 0 {
        assert(calls[transfers - 1] == sp[0]);
    }
}

/// A vault can be closed only by its authority, with its signature, only at the address its seeds
/// derive, and only once it owes nothing: no request is pending, no share is
/// outstanding, and every request queue it keeps is drained.
pub proof fn lemma_close_requires_settled_vault(accounts: CloseVault, derived: Option<Seq<u8>>)
    requires
        accounts.close_error(derived) is None,
    ensures
        accounts.authority.is_signer,
        accounts.authority.address@ == accounts.vault.state.authority@,
        derived == Some(accounts.vault.address@),
        accounts.vault.state.pending_async_requests == 0,
        accounts.share_mint.supply == 0,
        accounts.vault.extensions.subscription_queue matches Ok(q) && (q matches Some(p) ==> p.last_processed == p.total),
        accounts.vault.extensions.redemption_queue matches Ok(q) && (q matches Some(p) ==> p.last_processed == p.total),
{
}

} // verus!
