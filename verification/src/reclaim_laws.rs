//! Giving notice, sweeping, taking names back and parking them.
use vstd::prelude::*;

use crate::account::AccountId;
use crate::asset_gate::{ft_balance_fanout, ft_balances_clear, BalanceGate};
use crate::common::{capped_u128, capped_u64, PromiseError, RotationCause};
use crate::error::ContractError;
use crate::events::{BlockReason, Event, LeaseIntent};
use crate::host::{Call, Callback, Dispatch, Env, PromiseOrValue, Reply};
use crate::leasing_laws::rotates;
use crate::settling_laws::{feed_gains, lemma_feed};
use crate::ordered::OrderedSet;
use crate::registry::TlaRegistry;
use crate::types::{ActivityKind, ParkedEntry, SubAccountEntry};

verus! {

/// Whether the name is rented under this account, the account is known, and its life has run out: by its own term,
/// by its account's, or by its notice. The kind of the account does not matter.
pub open spec fn may_be_taken_back(reg: TlaRegistry, now: u64, tla_id: AccountId, key: Option<AccountId>) -> bool {
    &&& key is Some
    &&& reg.sub_accounts@.has(key->0)
    &&& reg.sub_accounts@[key->0].tla_id == tla_id
    &&& reg.tlas@.has(tla_id)
    &&& reg.name_lifecycle(now, tla_id, key->0) is Reclaimable
}

/// Why a name may not be taken back.
pub open spec fn not_taken_back_because(e: ContractError, reg: TlaRegistry, now: u64, tla_id: AccountId, key: Option<AccountId>) -> bool {
    ||| e is InvalidSubAccountId && key is None
    ||| e is SubAccountNotFound && !(key is Some && reg.sub_accounts@.has(key->0))
    ||| e is SubAccountTlaMismatch && reg.sub_accounts@[key->0].tla_id != tla_id
    ||| e is TlaNotFound && !reg.tlas@.has(tla_id)
    ||| e is SubAccountNotReclaimable && !(reg.name_lifecycle(now, tla_id, key->0) is Reclaimable)
}

/// Whether the name's own term still runs and its notice, if one was given, does too.
pub open spec fn own_term_runs(reg: TlaRegistry, now: u64, key: AccountId) -> bool {
    let sub = reg.sub_accounts@[key];
    &&& now < sub.expires_at
    &&& sub.retraction_at is None || now < capped_u64(sub.retraction_at->0 + reg.fee_config.retraction_notice_ns)
}

/// A name is taken back exactly if nothing is paused, it is not being taken back already, its life has run out, and
/// no notice on a running term is still out: a name of a business account as much as one of an open account.
pub proof fn what_has_run_out_is_taken_back(
    registry: &mut TlaRegistry,
    env: Env,
    tla_id: AccountId,
    name: String,
    r: Result<Reply<Dispatch>, ContractError>,
)
    requires
        call_ensures(TlaRegistry::reclaim_finalize, (registry, &env, tla_id, name), r),
    ensures
        ({
            let reg = *old(registry);
            let key = crate::account::named_account_of(tla_id, name@);
            let busy = key is Some && reg.reclaim_pending@.has(key->0);
            let noticed = own_term_runs(reg, env.now, key->0) && reg.sub_accounts@[key->0].retraction_at is Some;
            match r {
                Ok(_) => {
                    &&& !(reg.paused && env.now < reg.paused_until_ns)
                    &&& crate::types::name_refusal(name@) is None
                    &&& !busy
                    &&& may_be_taken_back(reg, env.now, tla_id, key)
                    &&& !noticed
                },
                Err(e) => {
                    &&& *final(registry) == reg
                    &&& {
                        ||| e is Paused && reg.paused && env.now < reg.paused_until_ns
                        ||| crate::types::name_refusal(name@) == Some(e)
                        ||| e is ReclaimInProgress && busy
                        ||| not_taken_back_because(e, reg, env.now, tla_id, key)
                        ||| e is RetractionPending && noticed
                    }
                },
            }
        }),
{
}

/// A name that is reclaimable under its registered account, whatever the kind of that account, is never refused
/// while nothing is paused, it is not being taken back already, and no notice runs.
pub proof fn a_reclaimable_name_is_never_refused(registry: TlaRegistry, env: Env, tla_id: AccountId, name: Seq<char>)
    requires
        crate::types::name_refusal(name) is None,
        crate::account::is_account_id(name + seq!['.'] + tla_id@),
        ({
            let key = crate::account::sub_account_id(tla_id, name);
            let sub = registry.sub_accounts@[key];
            &&& registry.sub_accounts@.has(key)
            &&& sub.tla_id == tla_id
            &&& registry.tlas@.has(tla_id)
            &&& registry.name_lifecycle(env.now, tla_id, key) is Reclaimable
            &&& !registry.reclaim_pending@.has(key)
            &&& sub.retraction_at is None || env.now >= sub.expires_at || env.now >= capped_u64(
                sub.retraction_at->0 + registry.fee_config.retraction_notice_ns,
            )
        }),
        !(registry.paused && env.now < registry.paused_until_ns),
    ensures
        registry.finalize_refusal(env, tla_id, name) is None,
{
    assert(crate::account::sub_account_text(tla_id, name) =~= name + seq!['.'] + tla_id@);
}

/// An expired lease, its grace over and no pause near, is reclaimable whatever the kind and standing of its account.
pub proof fn an_expired_name_is_reclaimable(registry: TlaRegistry, now: u64, tla_id: AccountId, key: AccountId)
    requires
        now >= registry.sub_accounts@[key].expires_at,
        now >= capped_u64(registry.sub_accounts@[key].expires_at + registry.grace_period_ns),
        !registry.paused,
        now >= capped_u64(registry.unpaused_at + registry.grace_period_ns),
    ensures
        registry.name_lifecycle(now, tla_id, key) is Reclaimable,
{
}

/// Taking a name back starts with a notice where the name's own term still runs, and the wallet is told when it ends;
/// otherwise the name is marked, and the wallet is rotated to nobody, after every gated token was asked for its
/// balance.
pub proof fn taking_back_gives_notice_or_parks(
    registry: &mut TlaRegistry,
    env: Env,
    tla_id: AccountId,
    name: String,
    r: Result<Reply<Dispatch>, ContractError>,
)
    requires
        call_ensures(TlaRegistry::reclaim_finalize, (registry, &env, tla_id, name), r),
        r is Ok,
    ensures
        ({
            let reg = *old(registry);
            let after = *final(registry);
            let d = r->Ok_0.value;
            let key = crate::account::sub_account_id(tla_id, name@);
            let sub = reg.sub_accounts@[key];
            let ends_at = capped_u64(env.now + reg.fee_config.retraction_notice_ns);
            &&& d.deposit == 0
            &&& if own_term_runs(reg, env.now, key) {
                &&& after.sub_accounts@ == reg.sub_accounts@.insert(
                    key,
                    (SubAccountEntry { retraction_at: Some(env.now), ..sub }),
                )
                &&& after == (TlaRegistry { sub_accounts: after.sub_accounts, ..reg })
                &&& d.call == (Call::RetractLease { extension: reg.hos_extension, wallet: key, ends_at })
                &&& d.callback == (Callback::LeaseSynced { full_name: key, intent: LeaseIntent::Retract })
                &&& r->Ok_0.events@ == seq![
                    Event::SubAccountRetractionScheduled {
                        full_name: key,
                        retraction_at: ends_at,
                        by: env.predecessor,
                    },
                ]
            } else {
                &&& after.reclaim_pending@ == reg.reclaim_pending@.insert(key, ())
                &&& after == (TlaRegistry { reclaim_pending: after.reclaim_pending, ..reg })
                &&& r->Ok_0.events@.len() == 0
                &&& reg.ft_allowlist@.len() == 0 ==> rotates(
                    d.call,
                    reg.hos_extension,
                    key,
                    None,
                    RotationCause::Reclaim,
                    None,
                ) && d.callback == (Callback::ReclaimFinalized { tla_id, name, destination: sub.payout_account })
                &&& reg.ft_allowlist@.len() > 0 ==> {
                    &&& d.call matches Call::FtBalances { tokens, account }
                    &&& tokens@ == reg.ft_allowlist@.keys
                    &&& account == key
                    &&& d.callback == (Callback::BalancesChecked { tla_id, name, destination: sub.payout_account })
                }
            }
        }),
{
}

/// A reclaim goes on exactly if every gated token answered with a zero balance and the name may still be taken back;
/// else the name is no longer being taken back, and why is reported.
pub proof fn a_reclaim_goes_on_over_an_empty_account(
    registry: &mut TlaRegistry,
    env: Env,
    tla_id: AccountId,
    name: String,
    destination: AccountId,
    allowlist: Vec<AccountId>,
    balances: Vec<Result<u128, PromiseError>>,
    r: Reply<PromiseOrValue<()>>,
)
    requires
        call_ensures(
            TlaRegistry::on_balances_checked,
            (registry, &env, tla_id, name, destination, allowlist, balances),
            r,
        ),
    ensures
        ({
            let reg = *old(registry);
            let after = *final(registry);
            let key = crate::account::named_account_of(tla_id, name@);
            let empty = allowlist@.len() == balances@.len() && forall|i: int|
                0 <= i < balances@.len() ==> #[trigger] balances@[i] == Ok::<u128, PromiseError>(0);
            if empty && may_be_taken_back(reg, env.now, tla_id, key) {
                &&& after == reg
                &&& r.events@.len() == 0
                &&& r.value matches PromiseOrValue::Promise(d)
                &&& rotates(d.call, reg.hos_extension, key->0, None, RotationCause::Reclaim, None)
                &&& d.callback == (Callback::ReclaimFinalized { tla_id, name, destination })
                &&& d.deposit == 0
            } else {
                &&& r.value is Value
                &&& key is Some ==> after.reclaim_pending@ == reg.reclaim_pending@.remove(key->0)
                &&& key is None ==> after.reclaim_pending == reg.reclaim_pending
                &&& after == (TlaRegistry { reclaim_pending: after.reclaim_pending, ..reg })
                &&& r.events@.len() == 1
                &&& r.events@[0] matches Event::ReclaimFinalizeBlocked { full_name, token, reason }
                &&& full_name == crate::account::full_name_of(tla_id, name)
                &&& empty ==> reason is NoLongerReclaimable && token is None
                &&& !empty ==> reason is NonzeroBalance || reason is BalanceUnknown
            }
        }),
{
    crate::asset_gate::gate_clears_only_empty_accounts(allowlist@, balances@);
    if allowlist@.len() == balances@.len() {
        lemma_gate_reason(allowlist@, balances@, 0);
    }
}

/// The balance gate blocks for a balance that is not zero or not known.
proof fn lemma_gate_reason(tokens: Seq<AccountId>, balances: Seq<Result<u128, PromiseError>>, from: int)
    requires
        0 <= from <= tokens.len() == balances.len(),
    ensures
        crate::asset_gate::gate_from(tokens, balances, from) matches crate::asset_gate::BalanceGate::Blocked {
            reason,
            ..
        } ==> reason is NonzeroBalance || reason is BalanceUnknown,
    decreases tokens.len() - from,
{
    if from < tokens.len() {
        lemma_gate_reason(tokens, balances, from + 1);
    }
}

/// A name whose wallet was rotated to nobody leaves the ledger and is parked from now on: its token is burnt, it no longer
/// counts, and a business gives its place back. A rotation that did not take place only ends the reclaim.
pub proof fn a_reclaimed_name_is_parked(
    registry: &mut TlaRegistry,
    env: Env,
    tla_id: AccountId,
    name: String,
    destination: AccountId,
    parked: Result<bool, PromiseError>,
    r: Vec<Event>,
)
    requires
        call_ensures(TlaRegistry::on_reclaim_finalized, (registry, &env, tla_id, name, destination, parked), r),
    ensures
        ({
            let reg = *old(registry);
            let after = *final(registry);
            let key = crate::account::named_account_of(tla_id, name@);
            let rented = key is Some && reg.sub_accounts@.has(key->0);
            let done = parked == Ok::<bool, PromiseError>(true);
            let count = reg.business_count(tla_id);
            &&& key is Some ==> after.reclaim_pending@ == reg.reclaim_pending@.remove(key->0)
            &&& key is None ==> after.reclaim_pending == reg.reclaim_pending
            &&& !(done && rented) ==> after == (TlaRegistry { reclaim_pending: after.reclaim_pending, ..reg })
            &&& !done ==> r@ == seq![
                Event::ReclaimFinalizeBlocked {
                    full_name: crate::account::full_name_of(tla_id, name),
                    token: None,
                    reason: BlockReason::ParkFailed,
                },
            ]
            &&& done && !rented ==> r@.len() == 0
            &&& done && rented ==> {
                &&& after.sub_accounts@ == reg.sub_accounts@.remove(key->0)
                &&& reg.indexed() ==> after.indexed()
                &&& after.parked_names@ == reg.parked_names@.insert(
                    name@ + seq!['.'] + tla_id@,
                    ParkedEntry { tla_id, parked_at: env.now },
                )
                &&& after.business_count(tla_id) == (if reg.is_business(tla_id) && count > 0 {
                    count - 1
                } else {
                    count as int
                })
                &&& after.sub_account_count == (if reg.sub_account_count > 0 {
                    reg.sub_account_count - 1
                } else {
                    0
                })
                &&& r@ == seq![
                    Event::NftBurn { owner_id: reg.sub_accounts@[key->0].owner, token_id: key->0 },
                    Event::SubAccountReclaimed { full_name: key->0, tla_id, swept_to: destination },
                ]
                &&& reg.recent_activity@.len() <= 256 ==> feed_gains(after, reg, ActivityKind::Reclaimed, key->0, env)
                &&& after == (TlaRegistry {
                    reclaim_pending: after.reclaim_pending,
                    sub_accounts: after.sub_accounts,
                    sub_accounts_by_owner: after.sub_accounts_by_owner,
                    sub_accounts_by_tla: after.sub_accounts_by_tla,
                    sub_account_count: after.sub_account_count,
                    business_sub_count: after.business_sub_count,
                    parked_names: after.parked_names,
                    recent_activity: after.recent_activity,
                    ..reg
                })
            }
        }),
{
    assert(crate::account::sub_account_text(tla_id, name@) =~= name@ + seq!['.'] + tla_id@);
    let reg = *old(registry);
    let after = *final(registry);
    let event = r@.last();
    let key = crate::account::named_account_of(tla_id, name@)->0;
    if reg.recent_activity@.len() <= 256 && event.activity() == Some((ActivityKind::Reclaimed, key))
        && after.recent_activity@ == crate::activity::feed_after(reg.recent_activity@, event, env) {
        lemma_feed(after, reg, event, ActivityKind::Reclaimed, key, env);
    }
}

// ---- sweeping ---------------------------------------------------------------------------------

/// Whether an account may be swept: it is parked, or its name may be taken back.
pub open spec fn may_be_swept(reg: TlaRegistry, now: u64, tla_id: AccountId, name: Seq<char>) -> bool {
    let key = crate::account::named_account_of(tla_id, name);
    ||| key is Some && reg.parked_names@.has(name + seq!['.'] + tla_id@)
    ||| may_be_taken_back(reg, now, tla_id, key)
}

/// Anyone sweeps the NEAR of an account that is parked or may be taken back, for one yocto, and nothing of the ledger
/// moves.
pub proof fn a_sweep_of_near_takes_one_yocto(
    registry: &mut TlaRegistry,
    env: Env,
    tla_id: AccountId,
    name: String,
    r: Result<Reply<Dispatch>, ContractError>,
)
    requires
        call_ensures(TlaRegistry::reclaim_sweep_near, (registry, &env, tla_id, name), r),
    ensures
        *final(registry) == *old(registry),
        ({
            let reg = *old(registry);
            let key = crate::account::named_account_of(tla_id, name@);
            match r {
                Ok(reply) => {
                    &&& env.deposit == 1
                    &&& crate::types::name_refusal(name@) is None
                    &&& may_be_swept(reg, env.now, tla_id, name@)
                    &&& reply.value.call == (Call::SweepNear { extension: reg.hos_extension, wallet: key->0 })
                    &&& reply.value.deposit == 0
                },
                Err(e) => {
                    ||| e is RequiresOneYocto && env.deposit != 1
                    ||| crate::types::name_refusal(name@) == Some(e)
                    ||| !may_be_swept(reg, env.now, tla_id, name@) && not_taken_back_because(
                        e,
                        reg,
                        env.now,
                        tla_id,
                        key,
                    )
                },
            }
        }),
{
    assert(crate::account::sub_account_text(tla_id, name@) =~= name@ + seq!['.'] + tla_id@);
}

/// Anyone sweeps a sweepable token of such an account, for the storage deposit and one yocto; what they bring beyond that
/// is owed back.
pub proof fn a_sweep_of_tokens_takes_the_storage_deposit(
    registry: &mut TlaRegistry,
    env: Env,
    tla_id: AccountId,
    name: String,
    ft: AccountId,
    other: AccountId,
    r: Result<Reply<Dispatch>, ContractError>,
)
    requires
        call_ensures(TlaRegistry::reclaim_sweep_ft, (registry, &env, tla_id, name, ft), r),
        other != env.predecessor,
    ensures
        ({
            let reg = *old(registry);
            let after = *final(registry);
            let key = crate::account::named_account_of(tla_id, name@);
            let needed: int = 1_250_000_000_000_000_000_001;
            match r {
                Ok(reply) => {
                    &&& crate::types::name_refusal(name@) is None
                    &&& env.deposit >= needed
                    &&& reg.sweepable_tokens@.has(ft)
                    &&& may_be_swept(reg, env.now, tla_id, name@)
                    &&& reply.value.call == (Call::SweepFt {
                        extension: reg.hos_extension,
                        wallet: key->0,
                        token: ft,
                        caller: env.predecessor,
                    })
                    &&& reply.value.deposit == needed
                    &&& after.refund_of(env.predecessor) == capped_u128(
                        reg.refund_of(env.predecessor) + (env.deposit - needed),
                    )
                    &&& after.refund_of(other) == reg.refund_of(other)
                    &&& after.total_pending_refunds == capped_u128(
                        reg.total_pending_refunds + (env.deposit - needed),
                    )
                    &&& after == (TlaRegistry {
                        pending_refunds: after.pending_refunds,
                        total_pending_refunds: after.total_pending_refunds,
                        ..reg
                    })
                },
                Err(e) => {
                    &&& after == reg
                    &&& {
                        ||| crate::types::name_refusal(name@) == Some(e)
                        ||| e is InsufficientPayment && env.deposit < needed
                        ||| e is TokenNotInAllowlist && !reg.sweepable_tokens@.has(ft)
                        ||| !may_be_swept(reg, env.now, tla_id, name@) && not_taken_back_because(
                            e,
                            reg,
                            env.now,
                            tla_id,
                            key,
                        )
                    }
                },
            }
        }),
{
    assert(crate::account::sub_account_text(tla_id, name@) =~= name@ + seq!['.'] + tla_id@);
}

// ---- notices ----------------------------------------------------------------------------------

/// Notice is given exactly by the licensee of a business account, with one yocto, while nothing is paused, on a rented name
/// that has none yet. It runs from now, and the wallet is told when it ends.
pub proof fn a_licensee_gives_notice(
    registry: &mut TlaRegistry,
    env: Env,
    tla_id: AccountId,
    name: String,
    r: Result<Reply<Dispatch>, ContractError>,
)
    requires
        call_ensures(TlaRegistry::schedule_retraction, (registry, &env, tla_id, name), r),
    ensures
        ({
            let reg = *old(registry);
            let after = *final(registry);
            let key = crate::account::named_account_of(tla_id, name@);
            let rented = key is Some && reg.sub_accounts@.has(key->0);
            let sub = reg.sub_accounts@[key->0];
            let entry = reg.tlas@[tla_id];
            match r {
                Ok(reply) => {
                    &&& env.deposit == 1
                    &&& !(reg.paused && env.now < reg.paused_until_ns)
                    &&& crate::types::name_refusal(name@) is None
                    &&& reg.tlas@.has(tla_id)
                    &&& entry.tla_type is Business
                    &&& entry.licensee == Some(env.predecessor)
                    &&& rented
                    &&& sub.retraction_at is None
                    &&& after.sub_accounts@ == reg.sub_accounts@.insert(
                        key->0,
                        (SubAccountEntry { retraction_at: Some(env.now), ..sub }),
                    )
                    &&& after == (TlaRegistry { sub_accounts: after.sub_accounts, ..reg })
                    &&& reply.value.call == (Call::RetractLease {
                        extension: reg.hos_extension,
                        wallet: key->0,
                        ends_at: capped_u64(env.now + reg.fee_config.retraction_notice_ns),
                    })
                    &&& reply.value.callback == (Callback::RetractionScheduled {
                        full_name: key->0,
                        by: env.predecessor,
                    })
                    &&& reply.value.deposit == 0
                },
                Err(e) => {
                    &&& after == reg
                    &&& {
                        ||| e is RequiresOneYocto && env.deposit != 1
                        ||| e is Paused && reg.paused && env.now < reg.paused_until_ns
                        ||| crate::types::name_refusal(name@) == Some(e)
                        ||| e is TlaNotFound && !reg.tlas@.has(tla_id)
                        ||| e is NotBusinessTla && entry.tla_type is Open
                        ||| e is OnlyLicensee && entry.licensee != Some(env.predecessor)
                        ||| e is SubAccountNotFound && !rented
                        ||| e is RetractionAlreadyScheduled && sub.retraction_at is Some
                    }
                },
            }
        }),
{
}

/// Notice is taken back exactly by the licensee, with one yocto, while nothing is paused and it still runs. The wallet gets its
/// lease back to its old end first; the row waits for it.
pub proof fn a_licensee_takes_notice_back(
    registry: &mut TlaRegistry,
    env: Env,
    tla_id: AccountId,
    name: String,
    r: Result<Reply<Dispatch>, ContractError>,
)
    requires
        call_ensures(TlaRegistry::cancel_retraction, (registry, &env, tla_id, name), r),
    ensures
        *final(registry) == *old(registry),
        ({
            let reg = *old(registry);
            let key = crate::account::named_account_of(tla_id, name@);
            let rented = key is Some && reg.sub_accounts@.has(key->0);
            let sub = reg.sub_accounts@[key->0];
            let entry = reg.tlas@[tla_id];
            let over = env.now >= capped_u64(sub.retraction_at->0 + reg.fee_config.retraction_notice_ns);
            match r {
                Ok(reply) => {
                    &&& env.deposit == 1
                    &&& !(reg.paused && env.now < reg.paused_until_ns)
                    &&& crate::types::name_refusal(name@) is None
                    &&& reg.tlas@.has(tla_id)
                    &&& rented
                    &&& entry.licensee == Some(env.predecessor)
                    &&& sub.retraction_at is Some
                    &&& !over
                    &&& reply.value.call == (Call::RestoreLease {
                        extension: reg.hos_extension,
                        wallet: key->0,
                        lease_until_ns: sub.expires_at,
                    })
                    &&& reply.value.callback == (Callback::RetractionCanceled {
                        full_name: key->0,
                        by: env.predecessor,
                    })
                    &&& reply.value.deposit == 0
                },
                Err(e) => {
                    ||| e is RequiresOneYocto && env.deposit != 1
                    ||| e is Paused && reg.paused && env.now < reg.paused_until_ns
                    ||| crate::types::name_refusal(name@) == Some(e)
                    ||| e is TlaNotFound && !reg.tlas@.has(tla_id)
                    ||| e is SubAccountNotFound && !rented
                    ||| e is OnlyLicensee && entry.licensee != Some(env.predecessor)
                    ||| e is NoRetractionScheduled && sub.retraction_at is None
                    ||| e is RetractionAlreadyElapsed && sub.retraction_at is Some && over
                },
            }
        }),
{
}

/// A notice stands exactly if the wallet took it, and falls exactly if the wallet has its lease back; nothing else of the row
/// moves.
pub proof fn a_notice_follows_the_wallet(
    given: &mut TlaRegistry,
    taken: &mut TlaRegistry,
    key: AccountId,
    by: AccountId,
    success: bool,
    r: Vec<Event>,
    s: Vec<Event>,
)
    requires
        call_ensures(TlaRegistry::on_retraction_scheduled, (given, key, by, success), r),
        call_ensures(TlaRegistry::on_retraction_canceled, (taken, key, by, success), s),
    ensures
        success ==> *final(given) == *old(given),
        !success ==> {
            &&& r@ == seq![Event::LeaseSyncFailed { full_name: key, intent: LeaseIntent::Retract }]
            &&& notice_is_gone(*final(given), *old(given), key)
        },
        success ==> {
            &&& s@ == seq![Event::SubAccountRetractionCanceled { full_name: key, by }]
            &&& notice_is_gone(*final(taken), *old(taken), key)
        },
        !success ==> *final(taken) == *old(taken) && s@ == seq![
            Event::LeaseSyncFailed { full_name: key, intent: LeaseIntent::Restore },
        ],
        success && old(given).sub_accounts@.has(key) && old(given).sub_accounts@[key].retraction_at is Some ==> r@
            == seq![
            Event::SubAccountRetractionScheduled {
                full_name: key,
                retraction_at: old(given).sub_accounts@[key].retraction_at->0,
                by,
            },
        ],
{
}

/// A rented name has no notice any more and is otherwise as it was.
pub open spec fn notice_is_gone(after: TlaRegistry, reg: TlaRegistry, key: AccountId) -> bool {
    &&& after == (TlaRegistry { sub_accounts: after.sub_accounts, ..reg })
    &&& !reg.sub_accounts@.has(key) ==> after.sub_accounts@ == reg.sub_accounts@
    &&& reg.sub_accounts@.has(key) ==> after.sub_accounts@ == reg.sub_accounts@.insert(
        key,
        (SubAccountEntry { retraction_at: None, ..reg.sub_accounts@[key] }),
    )
}

/// A lease update that the wallet did not take is reported, and nothing else happens.
pub proof fn a_missed_lease_update_is_reported(registry: &mut TlaRegistry, full_name: AccountId, intent: LeaseIntent, success: bool, r: Vec<Event>)
    requires
        call_ensures(TlaRegistry::on_lease_synced, (registry, full_name, intent, success), r),
    ensures
        *final(registry) == *old(registry),
        success ==> r@.len() == 0,
        !success ==> r@ == seq![Event::LeaseSyncFailed { full_name, intent }],
{
}

// ---- parking by hand --------------------------------------------------------------------------

/// An admin parks a name by hand exactly if the account is known and the name is neither rented nor parked, and releases one
/// exactly if it is parked and not rented; parking and releasing touch that one name.
pub proof fn an_admin_parks_and_releases_by_hand(
    parking: &mut TlaRegistry,
    releasing: &mut TlaRegistry,
    env: Env,
    tla_id: AccountId,
    name: String,
    r: Result<Reply<()>, ContractError>,
    s: Result<Reply<()>, ContractError>,
)
    requires
        call_ensures(TlaRegistry::admin_force_park, (parking, &env, tla_id, name), r),
        call_ensures(TlaRegistry::admin_release_park, (releasing, &env, tla_id, name), s),
    ensures
        ({
            let reg = *old(parking);
            let after = *final(parking);
            let text = name@ + seq!['.'] + tla_id@;
            let key = crate::account::named_account_of(tla_id, name@);
            let rented = key is Some && reg.sub_accounts@.has(key->0);
            match r {
                Ok(_) => {
                    &&& env.deposit == 1
                    &&& reg.admins@.has(env.predecessor)
                    &&& crate::types::name_refusal(name@) is None
                    &&& reg.tlas@.has(tla_id)
                    &&& !rented
                    &&& !reg.parked_names@.has(text)
                    &&& after.parked_names@ == reg.parked_names@.insert(
                        text,
                        ParkedEntry { tla_id, parked_at: env.now },
                    )
                    &&& after == (TlaRegistry { parked_names: after.parked_names, ..reg })
                },
                Err(e) => {
                    &&& after == reg
                    &&& {
                        ||| e is RequiresOneYocto && env.deposit != 1
                        ||| e is OnlyAdmin && !reg.admins@.has(env.predecessor)
                        ||| crate::types::name_refusal(name@) == Some(e)
                        ||| e is TlaNotFound && !reg.tlas@.has(tla_id)
                        ||| e is SubAccountNameTaken && (rented || reg.parked_names@.has(text))
                    }
                },
            }
        }),
        ({
            let reg = *old(releasing);
            let after = *final(releasing);
            let text = name@ + seq!['.'] + tla_id@;
            let key = crate::account::named_account_of(tla_id, name@);
            let rented = key is Some && reg.sub_accounts@.has(key->0);
            match s {
                Ok(_) => {
                    &&& env.deposit == 1
                    &&& reg.admins@.has(env.predecessor)
                    &&& !rented
                    &&& reg.parked_names@.has(text)
                    &&& after.parked_names@ == reg.parked_names@.remove(text)
                    &&& after == (TlaRegistry { parked_names: after.parked_names, ..reg })
                },
                Err(e) => {
                    &&& after == reg
                    &&& {
                        ||| e is RequiresOneYocto && env.deposit != 1
                        ||| e is OnlyAdmin && !reg.admins@.has(env.predecessor)
                        ||| e is SubAccountNameTaken && rented
                        ||| e is SubAccountNotParked && !reg.parked_names@.has(text)
                    }
                },
            }
        }),
{
    assert(crate::account::sub_account_text(tla_id, name@) =~= name@ + seq!['.'] + tla_id@);
}

/// An admin lets go of a reclaim that hangs, and of nothing else.
pub proof fn an_admin_lets_go_of_a_reclaim(registry: &mut TlaRegistry, env: Env, tla_id: AccountId, name: String, r: Result<Reply<()>, ContractError>)
    requires
        call_ensures(TlaRegistry::admin_clear_reclaim_pending, (registry, &env, tla_id, name), r),
    ensures
        ({
            let reg = *old(registry);
            let after = *final(registry);
            let key = crate::account::named_account_of(tla_id, name@);
            match r {
                Ok(_) => {
                    &&& env.deposit == 1
                    &&& reg.admins@.has(env.predecessor)
                    &&& key is Some ==> after.reclaim_pending@ == reg.reclaim_pending@.remove(key->0)
                    &&& key is None ==> after.reclaim_pending == reg.reclaim_pending
                    &&& after == (TlaRegistry { reclaim_pending: after.reclaim_pending, ..reg })
                },
                Err(e) => {
                    &&& after == reg
                    &&& {
                        ||| e is RequiresOneYocto && env.deposit != 1
                        ||| e is OnlyAdmin && !reg.admins@.has(env.predecessor)
                    }
                },
            }
        }),
{
}

// ---- the balance gate -------------------------------------------------------------------------

/// The balances are clear exactly if every token answered with a zero balance. Otherwise the answer names the first token that did not, and says whether its
/// balance is not zero or not known; answers that do not match the tokens name none.
pub proof fn the_first_token_that_blocks_is_named(
    tokens: Vec<AccountId>,
    balances: Vec<Result<u128, PromiseError>>,
    r: BalanceGate,
)
    requires
        call_ensures(ft_balances_clear, (&tokens, &balances), r),
    ensures
        r is Clear <==> tokens@.len() == balances@.len() && forall|i: int|
            0 <= i < balances@.len() ==> #[trigger] balances@[i] == Ok::<u128, PromiseError>(0),
        tokens@.len() != balances@.len() ==> (r matches BalanceGate::Blocked { token, reason } && token is None
            && reason is BalanceUnknown),
        tokens@.len() == balances@.len() ==> (r matches BalanceGate::Blocked { token, reason } ==> exists|i: int|
            first_to_block(tokens@, balances@, i, token, reason)),
{
    crate::asset_gate::gate_clears_only_empty_accounts(tokens@, balances@);
    if tokens@.len() == balances@.len() {
        lemma_first_to_block(tokens@, balances@, 0);
    }
}

/// The token at `i` blocks, and every token before it is empty.
pub open spec fn first_to_block(
    tokens: Seq<AccountId>,
    balances: Seq<Result<u128, PromiseError>>,
    i: int,
    token: Option<AccountId>,
    reason: BlockReason,
) -> bool {
    &&& 0 <= i < tokens.len()
    &&& token == Some(tokens[i])
    &&& forall|j: int| 0 <= j < i ==> #[trigger] balances[j] == Ok::<u128, PromiseError>(0)
    &&& balances[i] != Ok::<u128, PromiseError>(0)
    &&& reason is BalanceUnknown <==> balances[i] is Err
    &&& reason is NonzeroBalance <==> balances[i] is Ok
}

proof fn lemma_first_to_block(tokens: Seq<AccountId>, balances: Seq<Result<u128, PromiseError>>, from: int)
    requires
        0 <= from <= tokens.len() == balances.len(),
        forall|j: int| 0 <= j < from ==> #[trigger] balances[j] == Ok::<u128, PromiseError>(0),
    ensures
        crate::asset_gate::gate_from(tokens, balances, from) matches BalanceGate::Blocked { token, reason } ==> exists|i: int|
            first_to_block(tokens, balances, i, token, reason),
    decreases tokens.len() - from,
{
    if from < tokens.len() {
        if balances[from] == Ok::<u128, PromiseError>(0) {
            lemma_first_to_block(tokens, balances, from + 1);
        } else if let BalanceGate::Blocked { token, reason } = crate::asset_gate::gate_from(tokens, balances, from) {
            assert(first_to_block(tokens, balances, from, token, reason));
        }
    }
}

/// The balances of all gated tokens are asked for, in order, and of none where none is gated.
pub proof fn every_gated_token_is_asked(allowlist: OrderedSet<AccountId>, r: Option<Vec<AccountId>>)
    requires
        call_ensures(ft_balance_fanout, (&allowlist,), r),
    ensures
        r is Some <==> allowlist@.len() > 0,
        r matches Some(tokens) ==> tokens@ == allowlist@.keys,
{
}

} // verus!
