//! The balance gate that holds a name back while its account holds tokens.
use vstd::prelude::*;

use crate::account::AccountId;
use crate::common::PromiseError;
use crate::events::BlockReason;
use crate::ordered::OrderedSet;

verus! {

pub const FT_BALANCE_TGAS: u64 = 6;

pub const GATE_CALLER_FRAME_TGAS: u64 = 20;

/// What the balances of an account say.
#[derive(Clone, Copy, Debug)]
pub enum BalanceGate {
    Clear,
    Blocked { token: Option<AccountId>, reason: BlockReason },
}

/// What the balances from `from` on say: the first that is not known to be zero blocks.
pub open spec fn gate_from(tokens: Seq<AccountId>, balances: Seq<Result<u128, PromiseError>>, from: int) -> BalanceGate
    decreases tokens.len() - from,
{
    if from < 0 || from >= tokens.len() {
        BalanceGate::Clear
    } else {
        match balances[from] {
            Ok(balance) => if balance == 0 {
                gate_from(tokens, balances, from + 1)
            } else {
                BalanceGate::Blocked { token: Some(tokens[from]), reason: BlockReason::NonzeroBalance }
            },
            Err(_) => BalanceGate::Blocked { token: Some(tokens[from]), reason: BlockReason::BalanceUnknown },
        }
    }
}

/// The balance gate for one balance per token. Balances that do not match the tokens block.
pub open spec fn gate_of(tokens: Seq<AccountId>, balances: Seq<Result<u128, PromiseError>>) -> BalanceGate {
    if tokens.len() != balances.len() {
        BalanceGate::Blocked { token: None, reason: BlockReason::BalanceUnknown }
    } else {
        gate_from(tokens, balances, 0)
    }
}

/// Reads the answers to the balance queries of the tokens.
pub fn ft_balances_clear(allowlist: &Vec<AccountId>, balances: &Vec<Result<u128, PromiseError>>) -> (r: BalanceGate)
    ensures
        r == gate_of(allowlist@, balances@),
{
    if allowlist.len() != balances.len() {
        return BalanceGate::Blocked { token: None, reason: BlockReason::BalanceUnknown };
    }
    let mut i: usize = 0;
    while i < allowlist.len()
        invariant
            i <= allowlist@.len() == balances@.len(),
            gate_from(allowlist@, balances@, i as int) == gate_of(allowlist@, balances@),
        decreases allowlist@.len() - i,
    {
        match balances[i] {
            Ok(balance) => {
                if balance != 0 {
                    return BalanceGate::Blocked {
                        token: Some(allowlist[i]),
                        reason: BlockReason::NonzeroBalance,
                    };
                }
            },
            Err(_) => {
                return BalanceGate::Blocked { token: Some(allowlist[i]), reason: BlockReason::BalanceUnknown };
            },
        }
        i += 1;
    }
    BalanceGate::Clear
}

/// The tokens whose balances have to be asked for, if any.
pub fn ft_balance_fanout(allowlist: &OrderedSet<AccountId>) -> (r: Option<Vec<AccountId>>)
    ensures
        match r {
            Some(tokens) => tokens@ == allowlist@.keys && allowlist@.len() > 0,
            None => allowlist@.len() == 0,
        },
{
    if allowlist.is_empty() {
        return None;
    }
    Some(members(allowlist))
}

/// The members of a set, in order.
pub fn members(set: &OrderedSet<AccountId>) -> (r: Vec<AccountId>)
    ensures
        r@ == set@.keys,
{
    let mut r: Vec<AccountId> = Vec::new();
    let mut i: usize = 0;
    while i < set.len()
        invariant
            i <= set@.len(),
            r@ == set@.keys.take(i as int),
        decreases set@.len() - i,
    {
        r.push(*set.key_at(i));
        i += 1;
        assert(set@.keys.take(i as int) =~= set@.keys.take(i - 1).push(set@.keys[i - 1]));
    }
    assert(set@.keys.take(i as int) =~= set@.keys);
    r
}

/// The balance gate is clear exactly when every token answered with a zero balance.
pub proof fn gate_clears_only_empty_accounts(tokens: Seq<AccountId>, balances: Seq<Result<u128, PromiseError>>)
    ensures
        gate_of(tokens, balances) is Clear <==> tokens.len() == balances.len() && forall|i: int|
            0 <= i < balances.len() ==> #[trigger] balances[i] == Ok::<u128, PromiseError>(0),
{
    if tokens.len() == balances.len() {
        lemma_gate_from(tokens, balances, 0);
    }
}

proof fn lemma_gate_from(tokens: Seq<AccountId>, balances: Seq<Result<u128, PromiseError>>, from: int)
    requires
        0 <= from <= tokens.len() == balances.len(),
    ensures
        gate_from(tokens, balances, from) is Clear <==> forall|i: int|
            from <= i < balances.len() ==> #[trigger] balances[i] == Ok::<u128, PromiseError>(0),
    decreases tokens.len() - from,
{
    if from < tokens.len() {
        lemma_gate_from(tokens, balances, from + 1);
        assert(balances[from] == Ok::<u128, PromiseError>(0) <==> balances[from] is Ok && balances[from]->Ok_0 == 0);
    }
}

} // verus!
