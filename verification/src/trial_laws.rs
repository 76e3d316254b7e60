//! The small contracts that leased accounts are tried out against.
use vstd::prelude::*;

use crate::account::AccountId;
use crate::common::{capped_u128, PromiseError};
use crate::host::Env;
use crate::test_dapp::{DappError, TestDapp};
use crate::test_ft::{FtError, OnTransfer, TestFt};
use crate::test_staking_pool::{PoolError, TestStakingPool};

verus! {

// ---- the token --------------------------------------------------------------------------------

/// What an account holds of the token.
pub open spec fn held(ft: TestFt, account: AccountId) -> int {
    if ft.balances@.has(account) {
        ft.balances@[account] as int
    } else {
        0
    }
}

/// Whether a transfer may take place: one yocto, a registered receiver, and a sender who holds the amount.
pub open spec fn may_transfer(ft: TestFt, env: Env, to: AccountId, amount: u128) -> bool {
    env.deposit == 1 && ft.registered@.has(to) && held(ft, env.predecessor) >= amount
}

/// Why a transfer may not take place.
pub open spec fn not_transferred_because(e: FtError, ft: TestFt, env: Env, to: AccountId, amount: u128) -> bool {
    ||| e is RequiresOneYocto && env.deposit != 1
    ||| e is ReceiverNotRegistered && !ft.registered@.has(to)
    ||| e is NotEnoughBalance && held(ft, env.predecessor) < amount
}

/// The amount has gone from one account to the other, and no other account's changes.
pub open spec fn has_gone(after: TestFt, ft: TestFt, from: AccountId, to: AccountId, amount: u128) -> bool {
    &&& from != to ==> held(after, from) == held(ft, from) - amount && held(after, to) == capped_u128(
        held(ft, to) + amount,
    )
    &&& from == to ==> held(after, from) == held(ft, from)
    &&& forall|other: AccountId| other != from && other != to ==> #[trigger] held(after, other) == held(ft, other)
    &&& after == (TestFt { balances: after.balances, ..ft })
}

/// A transfer, with a message or without, moves the amount exactly if it may take place; with a message the receiver is then told.
pub proof fn a_transfer_moves_the_amount(
    plain: &mut TestFt,
    called: &mut TestFt,
    env: Env,
    to: AccountId,
    amount: u128,
    memo: Option<String>,
    msg: String,
    r: Result<(), FtError>,
    s: Result<OnTransfer, FtError>,
)
    requires
        call_ensures(TestFt::ft_transfer, (plain, &env, to, amount, memo), r),
        call_ensures(TestFt::ft_transfer_call, (called, &env, to, amount, memo, msg), s),
    ensures
        r is Ok ==> may_transfer(*old(plain), env, to, amount) && has_gone(
            *final(plain),
            *old(plain),
            env.predecessor,
            to,
            amount,
        ),
        s is Ok ==> may_transfer(*old(called), env, to, amount) && has_gone(
            *final(called),
            *old(called),
            env.predecessor,
            to,
            amount,
        ),
        s matches Ok(told) ==> told.receiver_id == to && told.sender_id == env.predecessor && told.amount == amount
            && told.msg == msg,
        r matches Err(e) ==> not_transferred_because(e, *old(plain), env, to, amount) && *final(plain) == *old(plain),
        s matches Err(e) ==> not_transferred_because(e, *old(called), env, to, amount) && *final(called) == *old(called),
{
}

/// A receiver gives back what it did not use, all of it if it failed, but never more than it was sent or still holds; what is answered is what
/// it kept.
pub proof fn a_receiver_gives_back_what_it_left(
    ft: &mut TestFt,
    from: AccountId,
    to: AccountId,
    amount: u128,
    result: Result<u128, PromiseError>,
    r: u128,
)
    requires
        call_ensures(TestFt::ft_resolve_transfer, (ft, from, to, amount, result), r),
        from != to,
    ensures
        ({
            let left: int = match result {
                Ok(unused) => if unused < amount {
                    unused as int
                } else {
                    amount as int
                },
                Err(_) => amount as int,
            };
            let back = if left < held(*old(ft), to) {
                left
            } else {
                held(*old(ft), to)
            };
            &&& r == amount - back
            &&& held(*final(ft), to) == held(*old(ft), to) - back
            &&& held(*final(ft), from) == capped_u128(held(*old(ft), from) + back)
            &&& forall|other: AccountId|
                other != from && other != to ==> #[trigger] held(*final(ft), other) == held(*old(ft), other)
            &&& *final(ft) == (TestFt { balances: final(ft).balances, ..*old(ft) })
        }),
{
}

/// Minting adds to one account and to the supply, and registers the account; a new token is all its owner's.
pub proof fn minting_adds_to_one_account(
    ft: &mut TestFt,
    account: AccountId,
    amount: u128,
    owner: AccountId,
    supply: u128,
    fresh: TestFt,
    other: AccountId,
)
    requires
        call_ensures(TestFt::mint, (ft, account, amount), ()),
        call_ensures(TestFt::new, (owner, supply), fresh),
        other != account,
    ensures
        held(*final(ft), account) == capped_u128(held(*old(ft), account) + amount),
        held(*final(ft), other) == held(*old(ft), other),
        final(ft).total_supply == capped_u128(old(ft).total_supply + amount),
        final(ft).registered@.has(account),
        final(ft).registered@.has(other) <==> old(ft).registered@.has(other),
        held(fresh, owner) == supply,
        fresh.total_supply == supply,
        other != owner ==> held(fresh, other) == 0 && !fresh.registered@.has(other),
        fresh.registered@.has(owner),
        !fresh.refuse_storage_deposit,
{
}

/// A storage deposit registers the account that was named, or the caller, unless deposits are refused; the views say what holds.
pub proof fn a_storage_deposit_registers(
    ft: &mut TestFt,
    shown: TestFt,
    refusing: &mut TestFt,
    env: Env,
    account: Option<AccountId>,
    only: Option<bool>,
    refuse: bool,
    who: AccountId,
    balance: u128,
    supply: u128,
    storage: Option<u128>,
    known: bool,
    r: Result<(), FtError>,
)
    requires
        call_ensures(TestFt::storage_deposit, (ft, &env, account, only), r),
        call_ensures(TestFt::set_refuse_storage_deposit, (refusing, refuse), ()),
        call_ensures(TestFt::ft_balance_of, (&shown, who), balance),
        call_ensures(TestFt::ft_total_supply, (&shown,), supply),
        call_ensures(TestFt::storage_balance_of, (&shown, who), storage),
        call_ensures(TestFt::is_registered, (&shown, who), known),
    ensures
        r is Ok <==> !old(ft).refuse_storage_deposit,
        r matches Err(e) ==> e is StorageDepositRefused && *final(ft) == *old(ft),
        r is Ok ==> {
            let named = if account is Some {
                account->0
            } else {
                env.predecessor
            };
            &&& final(ft).registered@.has(named)
            &&& who != named ==> (final(ft).registered@.has(who) <==> old(ft).registered@.has(who))
            &&& *final(ft) == (TestFt { registered: final(ft).registered, ..*old(ft) })
        },
        *final(refusing) == (TestFt { refuse_storage_deposit: refuse, ..*old(refusing) }),
        balance == held(shown, who),
        supply == shown.total_supply,
        known <==> shown.registered@.has(who),
        known ==> storage == Some(1_250_000_000_000_000_000_000u128),
        !known ==> storage is None,
{
}

// ---- the application --------------------------------------------------------------------------

/// The application books what its own token brings, for the sender, and keeps all of it; it takes nothing from any other token.
pub proof fn the_application_books_its_own_token(
    dapp: &mut TestDapp,
    env: Env,
    sender: AccountId,
    amount: u128,
    msg: String,
    other: AccountId,
    r: Result<u128, DappError>,
)
    requires
        call_ensures(TestDapp::ft_on_transfer, (dapp, &env, sender, amount, msg), r),
        other != sender,
    ensures
        r is Ok <==> env.predecessor == old(dapp).token,
        r matches Ok(unused) ==> {
            &&& unused == 0
            &&& final(dapp).position(sender) == capped_u128(old(dapp).position(sender) + amount)
            &&& final(dapp).position(other) == old(dapp).position(other)
            &&& *final(dapp) == (TestDapp { positions: final(dapp).positions, ..*old(dapp) })
        },
        r matches Err(e) ==> e is UnknownToken && *final(dapp) == *old(dapp),
{
}

/// The application gives a name back when the message says so, fails when it says so, and otherwise keeps it and counts the session.
pub proof fn the_application_does_what_the_message_says(
    dapp: &mut TestDapp,
    sender: AccountId,
    previous: AccountId,
    token_id: String,
    msg: String,
    other: AccountId,
    r: Result<bool, DappError>,
)
    requires
        old(dapp).session_actions(previous) < u32::MAX,
        call_ensures(TestDapp::nft_on_transfer, (dapp, sender, previous, token_id, msg), r),
        other != previous,
    ensures
        r is Err <==> msg@ == "panic"@,
        r matches Err(e) ==> e is ReceiverRejected,
        r == Ok::<bool, DappError>(true) <==> msg@ == "return"@ && msg@ != "panic"@,
        r != Ok::<bool, DappError>(false) ==> *final(dapp) == *old(dapp),
        r == Ok::<bool, DappError>(false) ==> {
            &&& final(dapp).session_actions(previous) == old(dapp).session_actions(previous) + 1
            &&& final(dapp).session_actions(other) == old(dapp).session_actions(other)
            &&& *final(dapp) == (TestDapp { actions: final(dapp).actions, ..*old(dapp) })
        },
{
}

/// A session counts for its caller alone, up to the most a count can hold; what is shown is what was booked and counted.
pub proof fn a_session_counts_for_its_caller(
    dapp: &mut TestDapp,
    shown: TestDapp,
    fresh: TestDapp,
    token: AccountId,
    env: Env,
    other: AccountId,
    who: AccountId,
    position: u128,
    actions: u32,
)
    requires
        call_ensures(TestDapp::record_session_action, (dapp, &env), ()),
        call_ensures(TestDapp::get_position, (&shown, who), position),
        call_ensures(TestDapp::get_session_actions, (&shown, who), actions),
        call_ensures(TestDapp::new, (token,), fresh),
        other != env.predecessor,
    ensures
        old(dapp).session_actions(env.predecessor) < u32::MAX ==> final(dapp).session_actions(env.predecessor) == old(
            dapp,
        ).session_actions(env.predecessor) + 1,
        old(dapp).session_actions(env.predecessor) == u32::MAX ==> final(dapp).session_actions(env.predecessor) == u32::MAX,
        final(dapp).session_actions(other) == old(dapp).session_actions(other),
        *final(dapp) == (TestDapp { actions: final(dapp).actions, ..*old(dapp) }),
        shown.positions@.has(who) ==> position == shown.positions@[who],
        !shown.positions@.has(who) ==> position == 0,
        shown.actions@.has(who) ==> actions == shown.actions@[who],
        !shown.actions@.has(who) ==> actions == 0,
        fresh.token == token,
        !fresh.positions@.has(who) && !fresh.actions@.has(who),
{
}

// ---- the staking pool -------------------------------------------------------------------------

/// Staking takes a deposit and adds it to what the caller has staked; unstaking moves what is staked aside; withdrawing takes out what was set
/// aside. None of them takes more than there is, and no other account is touched.
pub proof fn the_pool_keeps_each_stake(
    staking: &mut TestStakingPool,
    unstaking: &mut TestStakingPool,
    leaving: &mut TestStakingPool,
    env: Env,
    amount: u128,
    other: AccountId,
    r: Result<(), PoolError>,
    s: Result<(), PoolError>,
    t: Result<(AccountId, u128), PoolError>,
)
    requires
        call_ensures(TestStakingPool::deposit_and_stake, (staking, &env), r),
        call_ensures(TestStakingPool::unstake, (unstaking, &env, amount), s),
        call_ensures(TestStakingPool::withdraw, (leaving, &env, amount), t),
        other != env.predecessor,
    ensures
        ({
            let who = env.predecessor;
            &&& r is Ok <==> env.deposit > 0
            &&& r matches Err(e) ==> e is NoDeposit && *final(staking) == *old(staking)
            &&& r is Ok ==> {
                &&& final(staking).staked_by(who) == capped_u128(old(staking).staked_by(who) + env.deposit)
                &&& final(staking).unstaked_by(who) == old(staking).unstaked_by(who)
                &&& final(staking).staked_by(other) == old(staking).staked_by(other)
                &&& final(staking).unstaked_by(other) == old(staking).unstaked_by(other)
            }
            &&& s is Ok <==> amount <= old(unstaking).staked_by(who)
            &&& s matches Err(e) ==> e is NotEnoughStaked && *final(unstaking) == *old(unstaking)
            &&& s is Ok ==> {
                &&& final(unstaking).staked_by(who) == old(unstaking).staked_by(who) - amount
                &&& final(unstaking).unstaked_by(who) == capped_u128(old(unstaking).unstaked_by(who) + amount)
                &&& final(unstaking).staked_by(other) == old(unstaking).staked_by(other)
                &&& final(unstaking).unstaked_by(other) == old(unstaking).unstaked_by(other)
            }
            &&& t is Ok <==> amount <= old(leaving).unstaked_by(who)
            &&& t matches Err(e) ==> e is NotEnoughUnstaked && *final(leaving) == *old(leaving)
            &&& t matches Ok((to, paid)) ==> {
                &&& to == who
                &&& paid == amount
                &&& final(leaving).staked_by(who) == old(leaving).staked_by(who)
                &&& final(leaving).unstaked_by(who) == old(leaving).unstaked_by(who) - amount
                &&& final(leaving).staked_by(other) == old(leaving).staked_by(other)
                &&& final(leaving).unstaked_by(other) == old(leaving).unstaked_by(other)
            }
        }),
{
}

/// The pool shows what each account has staked and set aside, and both together; a new pool has neither.
pub proof fn the_pool_shows_each_stake(
    pool: TestStakingPool,
    fresh: TestStakingPool,
    who: AccountId,
    staked: u128,
    unstaked: u128,
    total: u128,
)
    requires
        call_ensures(TestStakingPool::get_account_staked_balance, (&pool, who), staked),
        call_ensures(TestStakingPool::get_account_unstaked_balance, (&pool, who), unstaked),
        call_ensures(TestStakingPool::get_account_total_balance, (&pool, who), total),
        call_ensures(TestStakingPool::new, (), fresh),
    ensures
        staked == pool.staked_by(who),
        unstaked == pool.unstaked_by(who),
        pool.staked@.has(who) ==> staked == pool.staked@[who],
        !pool.staked@.has(who) ==> staked == 0,
        pool.unstaked@.has(who) ==> unstaked == pool.unstaked@[who],
        !pool.unstaked@.has(who) ==> unstaked == 0,
        total == capped_u128(staked + unstaked),
        fresh.staked_by(who) == 0 && fresh.unstaked_by(who) == 0,
{
}

} // verus!
