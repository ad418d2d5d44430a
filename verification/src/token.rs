use crate::address::Address;
use vstd::prelude::*;

verus! {

/// A call into a token program that the vault makes, signing as its
/// configuration account.
#[derive(Clone, Copy, Debug, PartialEq, Eq)]
pub enum TokenCall {
    /// Move `amount` tokens of `mint` from `from` to `to`, stating the mint's decimals.
    TransferChecked {
        token_program: Address,
        from: Address,
        mint: Address,
        to: Address,
        authority: Address,
        amount: u64,
        decimals: u8,
    },
    /// Close the token account `account`, sending its rent to `destination`.
    CloseAccount {
        token_program: Address,
        account: Address,
        destination: Address,
        authority: Address,
    },
    /// Hand the authority to mint tokens of `mint` to `new_authority`.
    SetMintTokensAuthority {
        token_program: Address,
        mint: Address,
        current_authority: Address,
        new_authority: Address,
    },
}

/// A ledger of token balances by account address.
pub type Ledger = Map<Seq<u8>, nat>;

/// The effect of one call on a ledger, as a token program applies it: a
/// transfer needs both accounts and enough tokens and must not overflow the
/// receiver; closing needs an empty account, which then leaves the ledger;
/// handing over a mint's authority moves no tokens. `None` where the call fails.
pub open spec fn apply_token_call(ledger: Ledger, call: TokenCall) -> Option<Ledger> {
    match call {
        TokenCall::TransferChecked { from, to, amount, .. } => {
            if !ledger.contains_key(from@) || !ledger.contains_key(to@) || ledger[from@] < amount {
                None
            } else if from@ == to@ {
                Some(ledger)
            } else if ledger[to@] + amount > u64::MAX {
                None
            } else {
                Some(
                    ledger.insert(from@, (ledger[from@] - amount) as nat).insert(
                        to@,
                        (ledger[to@] + amount) as nat,
                    ),
                )
            }
        },
        TokenCall::CloseAccount { account, .. } => {
            if ledger.contains_key(account@) && ledger[account@] == 0 {
                Some(ledger.remove(account@))
            } else {
                None
            }
        },
        TokenCall::SetMintTokensAuthority { .. } => Some(ledger),
    }
}

/// The effect of a sequence of calls, in order; `None` where one of them fails.
pub open spec fn apply_token_calls(ledger: Ledger, calls: Seq<TokenCall>) -> Option<Ledger>
    decreases calls.len(),
{
    if calls.len() == 0 {
        Some(ledger)
    } else {
        match apply_token_call(ledger, calls[0]) {
            Some(next) => apply_token_calls(next, calls.drop_first()),
            None => None,
        }
    }
}

/// Running two sequences of calls one after the other is running their concatenation.
pub proof fn lemma_apply_token_calls_append(ledger: Ledger, first: Seq<TokenCall>, second: Seq<TokenCall>)
    ensures
        apply_token_calls(ledger, first + second) == (match apply_token_calls(ledger, first) {
            Some(mid) => apply_token_calls(mid, second),
            None => None,
        }),
    decreases first.len(),
{
    if first.len() == 0 {
        assert(first + second =~= second);
    } else {
        assert((first + second).drop_first() =~= first.drop_first() + second);
        assert((first + second)[0] == first[0]);
        match apply_token_call(ledger, first[0]) {
            Some(next) => lemma_apply_token_calls_append(next, first.drop_first(), second),
            None => {},
        }
    }
}

} // verus!
