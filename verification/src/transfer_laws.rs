//! Handing names on: by their owner, as tokens, in and out of venues, and in a recovery.
use vstd::prelude::*;

use crate::account::AccountId;
use crate::common::{PromiseError, RotationCause};
use crate::error::ContractError;
use crate::events::Event;
use crate::host::{Call, Callback, Dispatch, Env, NftRotation, NftTransferCall, PromiseOrValue, Reply};
use crate::leasing_laws::rotates;
use crate::settling_laws::{feed_gains, lemma_feed};
use crate::registry::TlaRegistry;
use crate::types::{ActivityKind, SubAccountEntry};

verus! {

/// Whether the caller may hand the name on to `to`: they own it, it is no reclaim's, `to` is someone else and not the
/// name itself; and, unless the owner is a venue, nothing is paused, no notice is out, the account is open, the lease
/// is active, and `to` is a venue or not itself a rented name.
pub open spec fn may_hand_on(reg: TlaRegistry, env: Env, tla_id: AccountId, name: Seq<char>, to: AccountId) -> bool {
    let key = crate::account::named_account_of(tla_id, name);
    let sub = reg.sub_accounts@[key->0];
    &&& env.deposit == 1
    &&& crate::types::name_refusal(name) is None
    &&& key is Some
    &&& !reg.reclaim_pending@.has(key->0)
    &&& reg.sub_accounts@.has(key->0)
    &&& sub.tla_id == tla_id
    &&& sub.owner == env.predecessor
    &&& to != sub.owner
    &&& to != key->0
    &&& reg.venues@.has(sub.owner) || {
        &&& !(reg.paused && env.now < reg.paused_until_ns)
        &&& sub.retraction_at is None
        &&& reg.tlas@.has(tla_id)
        &&& reg.tlas@[tla_id].tla_type is Open
        &&& reg.name_lifecycle(env.now, tla_id, key->0) is Active
        &&& reg.venues@.has(to) || !reg.sub_accounts@.has(to)
    }
}

/// Why the caller may not hand the name on.
pub open spec fn not_handed_on_because(e: ContractError, reg: TlaRegistry, env: Env, tla_id: AccountId, name: Seq<char>, to: AccountId) -> bool {
    let key = crate::account::named_account_of(tla_id, name);
    let sub = reg.sub_accounts@[key->0];
    let from_venue = reg.venues@.has(sub.owner);
    ||| e is RequiresOneYocto && env.deposit != 1
    ||| crate::types::name_refusal(name) == Some(e)
    ||| e is ReclaimInProgress && key is Some && reg.reclaim_pending@.has(key->0)
    ||| e is SubAccountNotFound && !(key is Some && reg.sub_accounts@.has(key->0))
    ||| e is SubAccountTlaMismatch && sub.tla_id != tla_id
    ||| e is OnlyOwner && sub.owner != env.predecessor
    ||| e is SameOwner && to == sub.owner
    ||| e is TransferToSubAccount && to == key->0
    ||| !from_venue && {
        ||| e is Paused && reg.paused && env.now < reg.paused_until_ns
        ||| e is RetractionPending && sub.retraction_at is Some
        ||| e is TlaNotFound && !reg.tlas@.has(tla_id)
        ||| e is BusinessSubNotResellable && reg.tlas@[tla_id].tla_type is Business
        ||| e is SubAccountNotSellable && !(reg.name_lifecycle(env.now, tla_id, key->0) is Active)
        ||| e is TransferToRegisteredName && !reg.venues@.has(to) && reg.sub_accounts@.has(to)
    }
}

/// The dispatch that asks every gated token what the account holds.
pub open spec fn asks_for_balances(d: Dispatch, reg: TlaRegistry, key: AccountId) -> bool {
    &&& d.call matches Call::FtBalances { tokens, account }
    &&& tokens@ == reg.ft_allowlist@.keys
    &&& account == key
    &&& d.deposit == 0
}

/// A name is handed on exactly if the caller may hand it on. The ledger waits for the wallet; on the way out of a venue, or
/// where no token is gated, the wallet is rotated at once, and otherwise its balances are asked for first.
pub proof fn an_owner_hands_a_name_on(
    registry: &mut TlaRegistry,
    env: Env,
    tla_id: AccountId,
    name: String,
    to: AccountId,
    r: Result<Reply<Dispatch>, ContractError>,
)
    requires
        call_ensures(TlaRegistry::transfer_sub_account, (registry, &env, tla_id, name, to), r),
    ensures
        *final(registry) == *old(registry),
        ({
            let reg = *old(registry);
            let key = crate::account::sub_account_id(tla_id, name@);
            let cause = if reg.venues@.has(to) {
                RotationCause::Deposit
            } else {
                RotationCause::Transfer
            };
            let from = env.predecessor;
            match r {
                Ok(reply) => {
                    let d = reply.value;
                    &&& may_hand_on(reg, env, tla_id, name@, to)
                    &&& reply.events@.len() == 0
                    &&& if reg.venues@.has(from) || reg.ft_allowlist@.len() == 0 {
                        &&& rotates(d.call, reg.hos_extension, key, Some(to), cause, Some(from))
                        &&& d.callback == (Callback::SubAccountTransferred { tla_id, name, from, to, cause })
                        &&& d.deposit == 0
                    } else {
                        &&& asks_for_balances(d, reg, key)
                        &&& d.callback == (Callback::TransferBalancesChecked {
                            sub_account: key,
                            tla_id,
                            name,
                            from,
                            new_owner: to,
                            cause,
                        })
                    }
                },
                Err(e) => not_handed_on_because(e, reg, env, tla_id, name@, to),
            }
        }),
{
}

/// A gated transfer goes on exactly if every token answered with a zero balance; else it is refused and reported. Nothing of
/// the ledger moves either way.
pub proof fn a_transfer_goes_on_over_an_empty_account(
    registry: &mut TlaRegistry,
    key: AccountId,
    tla_id: AccountId,
    name: String,
    from: AccountId,
    to: AccountId,
    cause: RotationCause,
    allowlist: Vec<AccountId>,
    balances: Vec<Result<u128, PromiseError>>,
    r: Reply<Result<Dispatch, ContractError>>,
)
    requires
        call_ensures(
            TlaRegistry::on_transfer_balances_checked,
            (registry, key, tla_id, name, from, to, cause, allowlist, balances),
            r,
        ),
    ensures
        *final(registry) == *old(registry),
        ({
            let empty = allowlist@.len() == balances@.len() && forall|i: int|
                0 <= i < balances@.len() ==> #[trigger] balances@[i] == Ok::<u128, PromiseError>(0);
            &&& r.value is Ok <==> empty
            &&& r.value matches Ok(d) ==> {
                &&& rotates(d.call, old(registry).hos_extension, key, Some(to), cause, Some(from))
                &&& d.callback == (Callback::SubAccountTransferred { tla_id, name, from, to, cause })
                &&& r.events@.len() == 0
            }
            &&& r.value matches Err(e) ==> {
                &&& e is SubAccountHoldsTokens
                &&& r.events@.len() == 1
                &&& r.events@[0] matches Event::TransferBlockedByBalance { full_name, .. }
                &&& full_name == key
            }
        }),
{
    crate::asset_gate::gate_clears_only_empty_accounts(allowlist@, balances@);
}

/// The ledger once a name has gone from one owner to the next: the row has the new owner and payout account and is otherwise as
/// it was, the indexes hold, the move is logged, and nothing else changes.
pub open spec fn name_has_moved(
    after: TlaRegistry,
    reg: TlaRegistry,
    events: Seq<Event>,
    key: AccountId,
    from: AccountId,
    to: AccountId,
    payout: AccountId,
    memo: Option<String>,
) -> bool {
    &&& after.sub_accounts@ == reg.sub_accounts@.insert(
        key,
        (SubAccountEntry { owner: to, payout_account: payout, ..reg.sub_accounts@[key] }),
    )
    &&& reg.indexed() ==> after.indexed()
    &&& events.len() == 2
    &&& events[0] == (Event::NftTransfer { old_owner_id: from, new_owner_id: to, token_id: key, memo })
    &&& after == (TlaRegistry {
        sub_accounts: after.sub_accounts,
        sub_accounts_by_owner: after.sub_accounts_by_owner,
        recent_activity: after.recent_activity,
        ..reg
    })
}

/// A transfer lands exactly if the wallet was rotated and the name is still the sender's: the new owner has it, and its payout
/// too unless it was deposited with a venue. Otherwise nothing moves and the failure is reported.
pub proof fn a_transfer_lands_with_the_wallet(
    registry: &mut TlaRegistry,
    env: Env,
    tla_id: AccountId,
    name: String,
    from: AccountId,
    to: AccountId,
    cause: RotationCause,
    swapped: Result<bool, PromiseError>,
    r: Vec<Event>,
)
    requires
        call_ensures(
            TlaRegistry::on_sub_account_transferred,
            (registry, &env, tla_id, name, from, to, cause, swapped),
            r,
        ),
    ensures
        ({
            let reg = *old(registry);
            let after = *final(registry);
            let key = crate::account::named_account_of(tla_id, name@);
            let held = key is Some && reg.sub_accounts@.has(key->0) && reg.sub_accounts@[key->0].owner == from;
            let payout = if cause is Deposit {
                reg.sub_accounts@[key->0].payout_account
            } else {
                to
            };
            if swapped == Ok::<bool, PromiseError>(true) && held {
                &&& name_has_moved(after, reg, r@, key->0, from, to, payout, None)
                &&& r@[1] == (Event::SubAccountTransferred { full_name: key->0, tla_id, from, to })
                &&& reg.recent_activity@.len() <= 256 ==> feed_gains(after, reg, ActivityKind::Transferred, key->0, env)
            } else {
                &&& after == reg
                &&& r@ == seq![
                    Event::TransferFailed { full_name: crate::account::full_name_of(tla_id, name), from, to },
                ]
            }
        }),
{
    let reg = *old(registry);
    let after = *final(registry);
    let event = r@.last();
    let key = crate::account::named_account_of(tla_id, name@)->0;
    if reg.recent_activity@.len() <= 256 && event.activity() == Some((ActivityKind::Transferred, key))
        && after.recent_activity@ == crate::activity::feed_after(reg.recent_activity@, event, env) {
        lemma_feed(after, reg, event, ActivityKind::Transferred, key, env);
    }
}

/// A recovery is taken exactly from a recovery authority, with one yocto, while nothing is paused, for a rented name that is no
/// reclaim's and still its expected owner's, and to an account that is neither that owner, nor the name, nor a rented name. The
/// kind of its account, its lease and its notice do not matter.
pub proof fn a_recovery_takes_an_authority_and_the_expected_owner(
    registry: &mut TlaRegistry,
    env: Env,
    tla_id: AccountId,
    name: String,
    to: AccountId,
    expected: AccountId,
    r: Result<Reply<Dispatch>, ContractError>,
)
    requires
        call_ensures(TlaRegistry::recover_sub_account, (registry, &env, tla_id, name, to, expected), r),
    ensures
        *final(registry) == *old(registry),
        ({
            let reg = *old(registry);
            let key = crate::account::named_account_of(tla_id, name@);
            let rented = key is Some && reg.sub_accounts@.has(key->0);
            let sub = reg.sub_accounts@[key->0];
            match r {
                Ok(reply) => {
                    &&& env.deposit == 1
                    &&& reg.recovery_authorities@.has(env.predecessor)
                    &&& !(reg.paused && env.now < reg.paused_until_ns)
                    &&& crate::types::name_refusal(name@) is None
                    &&& rented
                    &&& !reg.reclaim_pending@.has(key->0)
                    &&& sub.owner == expected
                    &&& to != expected
                    &&& to != key->0
                    &&& !reg.sub_accounts@.has(to)
                    &&& rotates(
                        reply.value.call,
                        reg.hos_extension,
                        key->0,
                        Some(to),
                        RotationCause::Recovery,
                        None,
                    )
                    &&& reply.value.callback == (Callback::SubAccountRecovered { tla_id, name, from: expected, to })
                    &&& reply.value.deposit == 0
                },
                Err(e) => {
                    ||| e is RequiresOneYocto && env.deposit != 1
                    ||| e is OnlyRecoveryAuthority && !reg.recovery_authorities@.has(env.predecessor)
                    ||| e is Paused && reg.paused && env.now < reg.paused_until_ns
                    ||| crate::types::name_refusal(name@) == Some(e)
                    ||| e is ReclaimInProgress && key is Some && reg.reclaim_pending@.has(key->0)
                    ||| e is SubAccountNotFound && !rented
                    ||| e is OwnerMoved && sub.owner != expected
                    ||| e is SameOwner && to == sub.owner
                    ||| e is TransferToSubAccount && to == key->0
                    ||| e is TransferToRegisteredName && reg.sub_accounts@.has(to)
                },
            }
        }),
{
}

/// A recovery lands exactly if the wallet was rotated and the name is still the expected owner's: the new owner has it and its
/// payout. Otherwise nothing moves and the failure is reported.
pub proof fn a_recovery_lands_with_the_wallet(
    registry: &mut TlaRegistry,
    env: Env,
    tla_id: AccountId,
    name: String,
    from: AccountId,
    to: AccountId,
    swapped: Result<bool, PromiseError>,
    r: Vec<Event>,
)
    requires
        call_ensures(TlaRegistry::on_sub_account_recovered, (registry, &env, tla_id, name, from, to, swapped), r),
    ensures
        ({
            let reg = *old(registry);
            let after = *final(registry);
            let key = crate::account::named_account_of(tla_id, name@);
            let held = key is Some && reg.sub_accounts@.has(key->0) && reg.sub_accounts@[key->0].owner == from;
            if swapped == Ok::<bool, PromiseError>(true) && held {
                &&& name_has_moved(after, reg, r@, key->0, from, to, to, None)
                &&& r@[1] == (Event::SubAccountRecovered { full_name: key->0, tla_id, from, to })
                &&& reg.recent_activity@.len() <= 256 ==> feed_gains(after, reg, ActivityKind::Recovered, key->0, env)
            } else {
                &&& after == reg
                &&& r@ == seq![
                    Event::TransferFailed { full_name: crate::account::full_name_of(tla_id, name), from, to },
                ]
            }
        }),
{
    let reg = *old(registry);
    let after = *final(registry);
    let event = r@.last();
    let key = crate::account::named_account_of(tla_id, name@)->0;
    if reg.recent_activity@.len() <= 256 && event.activity() == Some((ActivityKind::Recovered, key))
        && after.recent_activity@ == crate::activity::feed_after(reg.recent_activity@, event, env) {
        lemma_feed(after, reg, event, ActivityKind::Recovered, key, env);
    }
}

// ---- tokens -----------------------------------------------------------------------------------

/// The account and the label that a token stands for.
pub open spec fn stands_for(reg: TlaRegistry, token: Seq<char>, tla_id: AccountId, name: Seq<char>) -> bool {
    &&& crate::account::is_account_id(token)
    &&& reg.sub_accounts@.has(AccountId::of(token))
    &&& reg.sub_accounts@[AccountId::of(token)].tla_id == tla_id
    &&& token == name + seq!['.'] + tla_id@
}

/// A token that is rented under an account that its id ends in has parts, and they join to its id; any other has none.
pub proof fn a_token_splits_into_label_and_account(registry: TlaRegistry, token: Seq<char>)
    ensures
        registry.token_parts(token) matches Some((tla_id, name)) ==> stands_for(registry, token, tla_id, name),
        registry.token_parts(token) is None ==> forall|tla_id: AccountId, name: Seq<char>|
            !#[trigger] stands_for(registry, token, tla_id, name),
{
    match registry.token_parts(token) {
        Some((tla_id, name)) => {
            let cut = token.len() - tla_id@.len() - 1;
            let text = name + seq!['.'] + tla_id@;
            assert forall|i: int| 0 <= i < token.len() implies text[i] == #[trigger] token[i] by {
                if i >= cut {
                    assert(token.subrange(cut, token.len() as int)[i - cut] == (seq!['.'] + tla_id@)[i - cut]);
                }
            }
            assert(text =~= token);
        },
        None => {
            assert forall|tla_id: AccountId, name: Seq<char>| !#[trigger] stands_for(registry, token, tla_id, name) by {
                if stands_for(registry, token, tla_id, name) {
                    assert(crate::account::sub_account_text(tla_id, name) =~= token);
                    crate::account::label_of_a_full_name(tla_id, name);
                }
            }
        },
    }
}

/// A token moves exactly as its name would: no approval is taken, an unknown token is not found, and otherwise the caller must
/// be one who may hand the name on. The ledger waits for the wallet.
pub proof fn a_token_moves_as_its_name(
    registry: &mut TlaRegistry,
    env: Env,
    to: AccountId,
    token_id: String,
    approval_id: Option<u64>,
    memo: Option<String>,
    tla_id: AccountId,
    name: Seq<char>,
    r: Result<Reply<Dispatch>, ContractError>,
)
    requires
        call_ensures(TlaRegistry::nft_transfer, (registry, &env, to, token_id, approval_id, memo), r),
        stands_for(*old(registry), token_id@, tla_id, name),
    ensures
        *final(registry) == *old(registry),
        ({
            let reg = *old(registry);
            let key = crate::account::sub_account_id(tla_id, name);
            let cause = if reg.venues@.has(to) {
                RotationCause::Deposit
            } else {
                RotationCause::Transfer
            };
            let from = env.predecessor;
            match r {
                Ok(reply) => {
                    let d = reply.value;
                    &&& approval_id is None
                    &&& may_hand_on(reg, env, tla_id, name, to)
                    &&& reply.events@.len() == 0
                    &&& if reg.venues@.has(from) || reg.ft_allowlist@.len() == 0 {
                        &&& rotates(d.call, reg.hos_extension, key, Some(to), cause, Some(from))
                        &&& d.callback matches Callback::NftRotationResolved(rotation)
                        &&& rotation_is(rotation, tla_id, name, from, to, memo, cause)
                    } else {
                        &&& asks_for_balances(d, reg, key)
                        &&& d.callback matches Callback::NftBalancesChecked { sub_account, rotation }
                        &&& sub_account == key
                        &&& rotation_is(rotation, tla_id, name, from, to, memo, cause)
                    }
                },
                Err(e) => {
                    ||| e is ApprovalsNotSupported && approval_id is Some
                    ||| not_handed_on_because(e, reg, env, tla_id, name, to)
                },
            }
        }),
{
    lemma_parts(*old(registry), token_id@, tla_id, name);
}

/// A token that stands for a name has that name's parts.
proof fn lemma_parts(reg: TlaRegistry, token: Seq<char>, tla_id: AccountId, name: Seq<char>)
    requires
        stands_for(reg, token, tla_id, name),
    ensures
        reg.token_parts(token) == Some((tla_id, name)),
{
    assert(crate::account::sub_account_text(tla_id, name) =~= token);
    crate::account::label_of_a_full_name(tla_id, name);
}

pub open spec fn rotation_is(r: NftRotation, tla_id: AccountId, name: Seq<char>, from: AccountId, to: AccountId, memo: Option<String>, cause: RotationCause) -> bool {
    &&& r.tla_id == tla_id
    &&& r.name@ == name
    &&& r.from == from
    &&& r.to == to
    &&& r.memo == memo
    &&& r.cause == cause
}

pub open spec fn call_is(
    r: NftTransferCall,
    tla_id: AccountId,
    name: Seq<char>,
    from: AccountId,
    to: AccountId,
    memo: Option<String>,
    msg: String,
    cause: RotationCause,
) -> bool {
    &&& r.tla_id == tla_id
    &&& r.name@ == name
    &&& r.from == from
    &&& r.to == to
    &&& r.memo == memo
    &&& r.msg == msg
    &&& r.cause == cause
}

/// A token that stands for no name moves for nobody.
pub proof fn an_unknown_token_moves_for_nobody(
    registry: &mut TlaRegistry,
    called: &mut TlaRegistry,
    env: Env,
    to: AccountId,
    token_id: String,
    approval_id: Option<u64>,
    memo: Option<String>,
    msg: String,
    r: Result<Reply<Dispatch>, ContractError>,
    s: Result<Reply<Dispatch>, ContractError>,
)
    requires
        call_ensures(TlaRegistry::nft_transfer, (registry, &env, to, token_id, approval_id, memo), r),
        call_ensures(TlaRegistry::nft_transfer_call, (called, &env, to, token_id, approval_id, memo, msg), s),
        forall|tla_id: AccountId, name: Seq<char>|
            !#[trigger] stands_for(*old(registry), token_id@, tla_id, name),
        forall|tla_id: AccountId, name: Seq<char>| !#[trigger] stands_for(*old(called), token_id@, tla_id, name),
    ensures
        r matches Err(e) && (e is TokenNotFound || e is ApprovalsNotSupported && approval_id is Some),
        s matches Err(e) && (e is TokenNotFound || e is ApprovalsNotSupported && approval_id is Some
            || e is MarketplacePaused && old(called).marketplace_paused),
        *final(registry) == *old(registry),
        *final(called) == *old(called),
{
    a_token_splits_into_label_and_account(*old(registry), token_id@);
    a_token_splits_into_label_and_account(*old(called), token_id@);
    if let Some((tla_id, name)) = old(registry).token_parts(token_id@) {
        assert(!stands_for(*old(registry), token_id@, tla_id, name));
    }
    if let Some((tla_id, name)) = old(called).token_parts(token_id@) {
        assert(!stands_for(*old(called), token_id@, tla_id, name));
    }
}

/// A transfer with a message starts exactly as the plain one, unless the marketplace is paused, which closes it.
pub proof fn a_token_moves_with_a_message_unless_the_market_is_paused(
    registry: &mut TlaRegistry,
    env: Env,
    to: AccountId,
    token_id: String,
    approval_id: Option<u64>,
    memo: Option<String>,
    msg: String,
    tla_id: AccountId,
    name: Seq<char>,
    r: Result<Reply<Dispatch>, ContractError>,
)
    requires
        call_ensures(TlaRegistry::nft_transfer_call, (registry, &env, to, token_id, approval_id, memo, msg), r),
        stands_for(*old(registry), token_id@, tla_id, name),
    ensures
        *final(registry) == *old(registry),
        ({
            let reg = *old(registry);
            let key = crate::account::sub_account_id(tla_id, name);
            let cause = if reg.venues@.has(to) {
                RotationCause::Deposit
            } else {
                RotationCause::Transfer
            };
            let from = env.predecessor;
            match r {
                Ok(reply) => {
                    let d = reply.value;
                    &&& !reg.marketplace_paused
                    &&& approval_id is None
                    &&& may_hand_on(reg, env, tla_id, name, to)
                    &&& reply.events@.len() == 0
                    &&& if reg.venues@.has(from) || reg.ft_allowlist@.len() == 0 {
                        &&& rotates(d.call, reg.hos_extension, key, Some(to), cause, Some(from))
                        &&& d.callback matches Callback::NftRotationResolvedCall(call)
                        &&& call_is(call, tla_id, name, from, to, memo, msg, cause)
                    } else {
                        &&& asks_for_balances(d, reg, key)
                        &&& d.callback matches Callback::NftCallBalancesChecked { sub_account, call }
                        &&& sub_account == key
                        &&& call_is(call, tla_id, name, from, to, memo, msg, cause)
                    }
                },
                Err(e) => {
                    ||| e is MarketplacePaused && reg.marketplace_paused
                    ||| e is ApprovalsNotSupported && approval_id is Some
                    ||| not_handed_on_because(e, reg, env, tla_id, name, to)
                },
            }
        }),
{
    lemma_parts(*old(registry), token_id@, tla_id, name);
}

/// A gated token transfer, with a message or without, goes on exactly if every token answered with a zero balance.
pub proof fn a_token_goes_on_over_an_empty_account(
    plain: &mut TlaRegistry,
    called: &mut TlaRegistry,
    key: AccountId,
    rotation: NftRotation,
    call: NftTransferCall,
    allowlist: Vec<AccountId>,
    balances: Vec<Result<u128, PromiseError>>,
    r: Reply<Result<Dispatch, ContractError>>,
    s: Reply<Result<Dispatch, ContractError>>,
)
    requires
        call_ensures(TlaRegistry::nft_on_balances_checked, (plain, key, rotation, allowlist, balances), r),
        call_ensures(TlaRegistry::nft_on_call_balances_checked, (called, key, call, allowlist, balances), s),
    ensures
        *final(plain) == *old(plain),
        *final(called) == *old(called),
        ({
            let empty = allowlist@.len() == balances@.len() && forall|i: int|
                0 <= i < balances@.len() ==> #[trigger] balances@[i] == Ok::<u128, PromiseError>(0);
            &&& r.value is Ok <==> empty
            &&& s.value is Ok <==> empty
            &&& r.value matches Err(e) ==> e is SubAccountHoldsTokens
            &&& s.value matches Err(e) ==> e is SubAccountHoldsTokens
            &&& r.value matches Ok(d) ==> {
                &&& rotates(
                    d.call,
                    old(plain).hos_extension,
                    key,
                    Some(rotation.to),
                    rotation.cause,
                    Some(rotation.from),
                )
                &&& d.callback == Callback::NftRotationResolved(rotation)
            }
            &&& s.value matches Ok(d) ==> {
                &&& rotates(d.call, old(called).hos_extension, key, Some(call.to), call.cause, Some(call.from))
                &&& d.callback == Callback::NftRotationResolvedCall(call)
            }
        }),
{
    crate::asset_gate::gate_clears_only_empty_accounts(allowlist@, balances@);
}

/// A token has moved exactly if its wallet was rotated and it is rented; otherwise the call fails, since an empty success would
/// pass for proof that it moved, and nothing changes.
pub proof fn a_token_lands_with_the_wallet(
    registry: &mut TlaRegistry,
    env: Env,
    rotation: NftRotation,
    swapped: Result<bool, PromiseError>,
    r: Result<Vec<Event>, ContractError>,
)
    requires
        call_ensures(TlaRegistry::nft_on_rotation_resolved, (registry, &env, rotation, swapped), r),
    ensures
        ({
            let reg = *old(registry);
            let after = *final(registry);
            let key = crate::account::named_account_of(rotation.tla_id, rotation.name@);
            let rented = key is Some && reg.sub_accounts@.has(key->0);
            let payout = if rotation.cause is Deposit {
                reg.sub_accounts@[key->0].payout_account
            } else {
                rotation.to
            };
            match r {
                Ok(events) => {
                    &&& swapped == Ok::<bool, PromiseError>(true)
                    &&& rented
                    &&& name_has_moved(
                        after,
                        reg,
                        events@,
                        key->0,
                        rotation.from,
                        rotation.to,
                        payout,
                        rotation.memo,
                    )
                    &&& reg.recent_activity@.len() <= 256 ==> feed_gains(
                        after,
                        reg,
                        ActivityKind::Transferred,
                        key->0,
                        env,
                    )
                },
                Err(e) => {
                    &&& after == reg
                    &&& {
                        ||| e is RotationNotConfirmed && swapped != Ok::<bool, PromiseError>(true)
                        ||| e is OwnerIndexOutOfSync && !rented
                    }
                },
            }
        }),
{
    let reg = *old(registry);
    let after = *final(registry);
    let event = r->Ok_0@.last();
    let key = crate::account::named_account_of(rotation.tla_id, rotation.name@)->0;
    if reg.recent_activity@.len() <= 256 && event.activity() == Some((ActivityKind::Transferred, key))
        && after.recent_activity@ == crate::activity::feed_after(reg.recent_activity@, event, env) {
        lemma_feed(after, reg, event, ActivityKind::Transferred, key, env);
    }
}

/// A token that came with a message has moved in the same way, and its receiver is then told by whom it was sent and with which
/// message.
pub proof fn a_token_lands_and_its_receiver_is_told(
    registry: &mut TlaRegistry,
    env: Env,
    call: NftTransferCall,
    swapped: Result<bool, PromiseError>,
    r: Result<Reply<Dispatch>, ContractError>,
)
    requires
        call_ensures(TlaRegistry::nft_on_rotation_resolved_call, (registry, &env, call, swapped), r),
    ensures
        ({
            let reg = *old(registry);
            let after = *final(registry);
            let key = crate::account::named_account_of(call.tla_id, call.name@);
            let rented = key is Some && reg.sub_accounts@.has(key->0);
            let payout = if call.cause is Deposit {
                reg.sub_accounts@[key->0].payout_account
            } else {
                call.to
            };
            match r {
                Ok(reply) => {
                    &&& swapped == Ok::<bool, PromiseError>(true)
                    &&& rented
                    &&& name_has_moved(after, reg, reply.events@, key->0, call.from, call.to, payout, call.memo)
                    &&& reg.recent_activity@.len() <= 256 ==> feed_gains(
                        after,
                        reg,
                        ActivityKind::Transferred,
                        key->0,
                        env,
                    )
                    &&& reply.value.call == (Call::NftOnTransfer {
                        receiver: call.to,
                        sender_id: call.from,
                        previous_owner_id: call.from,
                        token_id: key->0,
                        msg: call.msg,
                    })
                    &&& reply.value.callback == (Callback::NftResolveTransfer {
                        tla_id: call.tla_id,
                        name: call.name,
                        from: call.from,
                        to: call.to,
                    })
                },
                Err(e) => {
                    &&& after == reg
                    &&& {
                        ||| e is RotationNotConfirmed && swapped != Ok::<bool, PromiseError>(true)
                        ||| e is OwnerIndexOutOfSync && !rented
                    }
                },
            }
        }),
{
    let reg = *old(registry);
    let after = *final(registry);
    let event = r->Ok_0.events@.last();
    let key = crate::account::named_account_of(call.tla_id, call.name@)->0;
    if reg.recent_activity@.len() <= 256 && event.activity() == Some((ActivityKind::Transferred, key))
        && after.recent_activity@ == crate::activity::feed_after(reg.recent_activity@, event, env) {
        lemma_feed(after, reg, event, ActivityKind::Transferred, key, env);
    }
}

/// A receiver keeps the token exactly if it said that it does, or no longer has it; otherwise the wallet is rotated back to the
/// sender.
pub proof fn a_receiver_keeps_what_it_says_it_keeps(
    registry: &mut TlaRegistry,
    tla_id: AccountId,
    name: String,
    from: AccountId,
    to: AccountId,
    returned: Result<bool, PromiseError>,
    r: PromiseOrValue<bool>,
)
    requires
        call_ensures(TlaRegistry::nft_resolve_transfer, (registry, tla_id, name, from, to, returned), r),
    ensures
        *final(registry) == *old(registry),
        ({
            let reg = *old(registry);
            let key = crate::account::named_account_of(tla_id, name@);
            let held = key is Some && reg.sub_accounts@.has(key->0) && reg.sub_accounts@[key->0].owner == to;
            match r {
                PromiseOrValue::Value(kept) => kept && (returned == Ok::<bool, PromiseError>(false) || !held),
                PromiseOrValue::Promise(d) => {
                    &&& returned != Ok::<bool, PromiseError>(false)
                    &&& held
                    &&& rotates(d.call, reg.hos_extension, key->0, Some(from), RotationCause::Revert, None)
                    &&& d.callback == (Callback::NftReturnResolved { tla_id, name, from: to, to: from })
                    &&& d.deposit == 0
                },
            }
        }),
{
}

/// A return always answers that the receiver did not keep the token. The ledger takes it back exactly if the wallet was rotated
/// and the name is rented; otherwise nothing moves and the failure is reported.
pub proof fn a_return_lands_with_the_wallet(
    registry: &mut TlaRegistry,
    env: Env,
    tla_id: AccountId,
    name: String,
    from: AccountId,
    to: AccountId,
    swapped: Result<bool, PromiseError>,
    r: Reply<bool>,
)
    requires
        call_ensures(TlaRegistry::nft_on_return_resolved, (registry, &env, tla_id, name, from, to, swapped), r),
    ensures
        !r.value,
        ({
            let reg = *old(registry);
            let after = *final(registry);
            let key = crate::account::named_account_of(tla_id, name@);
            if swapped == Ok::<bool, PromiseError>(true) && key is Some && reg.sub_accounts@.has(key->0) {
                &&& name_has_moved(after, reg, r.events@, key->0, from, to, to, None)
                &&& reg.recent_activity@.len() <= 256 ==> feed_gains(
                    after,
                    reg,
                    ActivityKind::Transferred,
                    key->0,
                    env,
                )
            } else {
                &&& after == reg
                &&& r.events@ == seq![
                    Event::TransferFailed { full_name: crate::account::full_name_of(tla_id, name), from, to },
                ]
            }
        }),
{
    let reg = *old(registry);
    let after = *final(registry);
    let event = r.events@.last();
    let key = crate::account::named_account_of(tla_id, name@)->0;
    if reg.recent_activity@.len() <= 256 && event.activity() == Some((ActivityKind::Transferred, key))
        && after.recent_activity@ == crate::activity::feed_after(reg.recent_activity@, event, env) {
        lemma_feed(after, reg, event, ActivityKind::Transferred, key, env);
    }
}

/// What each cause of a rotation means: only a reclaim parks; only a deposit leaves the payout; a recovery and a revert sweep
/// nothing; a sale, a transfer and a deposit need the holder; a re-rent and a reclaim need the lease to be over.
pub proof fn what_a_cause_means(cause: RotationCause, parks: bool, repoints: bool, sweeps: bool, holder: bool, expiry: bool)
    requires
        call_ensures(RotationCause::parks, (cause,), parks),
        call_ensures(RotationCause::repoints_payout, (cause,), repoints),
        call_ensures(RotationCause::sweeps, (cause,), sweeps),
        call_ensures(RotationCause::needs_holder, (cause,), holder),
        call_ensures(RotationCause::needs_expiry, (cause,), expiry),
    ensures
        parks <==> cause is Reclaim,
        repoints <==> !(cause is Deposit),
        sweeps <==> !(cause is Recovery) && !(cause is Revert),
        holder <==> cause is Sale || cause is Transfer || cause is Deposit,
        expiry <==> cause is ReRent || cause is Reclaim,
{
}

} // verus!
