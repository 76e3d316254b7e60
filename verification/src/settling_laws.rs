//! What is booked, owed and undone once a mint, a re-rent, a payout change or a refund has answered.
use vstd::prelude::*;

use crate::account::AccountId;
use crate::common::{capped_u128, capped_u64, MintOutcome, PromiseError, RotationCause};
use crate::error::ContractError;
use crate::events::{Event, RefundReason};
use crate::host::{Call, Callback, Dispatch, Env, MintSettlement, PendingReRent, PromiseOrValue, Reply};
use crate::leasing_laws::{rotates, settles};
use crate::registry::TlaRegistry;
use crate::types::{PaidOrderState, ParkedEntry, SubAccountEntry};

verus! {

/// Whether the order is in flight for this name and this payer.
pub open spec fn in_flight(reg: TlaRegistry, order_id: Seq<char>, key: AccountId, by: AccountId) -> bool {
    &&& reg.paid_order_ids@.has(order_id)
    &&& reg.paid_order_ids@[order_id] matches PaidOrderState::InFlight { full_name, payer, .. }
    &&& full_name == key
    &&& payer == by
}

/// An order that is in flight for this name and payer is settled; any other stays as it is.
pub open spec fn order_is_settled(after: TlaRegistry, reg: TlaRegistry, order: Option<String>, key: AccountId, payer: AccountId) -> bool {
    if order is Some && in_flight(reg, order->0@, key, payer) {
        after.paid_order_ids@ == reg.paid_order_ids@.insert(order->0@, PaidOrderState::Settled)
    } else {
        after.paid_order_ids == reg.paid_order_ids
    }
}

/// An order that is in flight for this name and payer is forgotten, and its authority counts one mint fewer;
/// any other order, and any other count, stays as it is.
pub open spec fn order_is_given_back(
    after: TlaRegistry,
    reg: TlaRegistry,
    order: Option<String>,
    key: AccountId,
    payer: AccountId,
    tla_id: AccountId,
) -> bool {
    if order is Some && in_flight(reg, order->0@, key, payer) {
        let used = reg.mints_used(payer, tla_id);
        &&& after.paid_order_ids@ == reg.paid_order_ids@.remove(order->0@)
        &&& after.mints_used(payer, tla_id) == (if used == 0 {
            0
        } else {
            used - 1
        })
        &&& forall|a: AccountId, t: AccountId| (a, t) != (payer, tla_id) ==> #[trigger] after.mints_used(a, t)
            == reg.mints_used(a, t)
    } else {
        after.paid_order_ids == reg.paid_order_ids && after.authority_mints == reg.authority_mints
    }
}

/// The row of a name that came to nothing is gone, the indexes hold, a business counts one name fewer, and the
/// payer is owed all that they attached; where there was no row, nothing of this changes.
pub open spec fn rental_is_undone(
    after: TlaRegistry,
    reg: TlaRegistry,
    key: AccountId,
    tla_id: AccountId,
    payer: AccountId,
    attached: u128,
) -> bool {
    if reg.sub_accounts@.has(key) {
        let count = reg.business_count(tla_id);
        &&& after.sub_accounts@ == reg.sub_accounts@.remove(key)
        &&& reg.indexed() ==> after.indexed()
        &&& after.business_count(tla_id) == (if reg.is_business(tla_id) && count > 0 {
            count - 1
        } else {
            count as int
        })
        &&& after.refund_of(payer) == capped_u128(reg.refund_of(payer) + attached)
        &&& forall|other: AccountId| other != payer ==> #[trigger] after.refund_of(other) == reg.refund_of(other)
        &&& after.total_pending_refunds == capped_u128(reg.total_pending_refunds + attached)
    } else {
        &&& after.sub_accounts == reg.sub_accounts
        &&& after.sub_accounts_by_owner == reg.sub_accounts_by_owner
        &&& after.sub_accounts_by_tla == reg.sub_accounts_by_tla
        &&& after.business_sub_count == reg.business_sub_count
        &&& after.pending_refunds == reg.pending_refunds
        &&& after.total_pending_refunds == reg.total_pending_refunds
    }
}

/// What an order that was settled, or not, is reported as.
pub open spec fn settled_event(reg: TlaRegistry, order_id: String, key: AccountId, payer: AccountId) -> Event {
    if in_flight(reg, order_id@, key, payer) {
        Event::PaidRentalOrderSettled { full_name: key, order_id }
    } else {
        Event::PaidRentalOrderStale { order_id, full_name: crate::account::FullName::Account(key) }
    }
}

/// What an order that was given back, or not, is reported as.
pub open spec fn given_back_event(reg: TlaRegistry, order_id: String, key: AccountId, payer: AccountId) -> Event {
    if in_flight(reg, order_id@, key, payer) {
        Event::PaidRentalOrderReleased { order_id }
    } else {
        Event::PaidRentalOrderStale { order_id, full_name: crate::account::FullName::Account(key) }
    }
}

/// What an order for a text that is no account is reported as.
pub open spec fn strange_event(order_id: String, tla_id: AccountId, name: String) -> Event {
    Event::PaidRentalOrderStale { order_id, full_name: crate::account::FullName::Text { tla_id, name } }
}

/// The feed has one new record in front, of this kind, about this name, at this height and time.
pub open spec fn feed_gains(after: TlaRegistry, reg: TlaRegistry, kind: crate::types::ActivityKind, key: AccountId, env: Env) -> bool {
    let feed = after.recent_activity@;
    let before = reg.recent_activity@;
    &&& feed.len() == (if before.len() < 256 {
        before.len() + 1
    } else {
        256
    })
    &&& feed[0].event == kind
    &&& feed[0].account == key
    &&& feed[0].block_height == env.height
    &&& feed[0].block_timestamp == env.now
    &&& forall|i: int| 1 <= i < feed.len() ==> #[trigger] feed[i] == before[i - 1]
}

/// A mint that succeeded: the rent is earned, what was attached beyond the charge is owed back, the name counts,
/// its row stays, its order is settled, and it is reported as minted.
pub open spec fn mint_is_booked(
    after: TlaRegistry,
    reg: TlaRegistry,
    events: Seq<Event>,
    s: MintSettlement,
    key: AccountId,
    earned: u128,
    charge: int,
) -> bool {
    let back: int = if s.attached_yocto > charge {
        s.attached_yocto - charge
    } else {
        0
    };
    &&& after.total_revenue == capped_u128(reg.total_revenue + earned)
    &&& after.refund_of(s.payer) == capped_u128(reg.refund_of(s.payer) + back)
    &&& forall|other: AccountId| other != s.payer ==> #[trigger] after.refund_of(other) == reg.refund_of(other)
    &&& after.total_pending_refunds == capped_u128(reg.total_pending_refunds + back)
    &&& after.sub_account_count == capped_u64(reg.sub_account_count + 1)
    &&& order_is_settled(after, reg, s.order_id, key, s.payer)
    &&& events.len() == (if s.order_id is Some {
        3int
    } else {
        2
    })
    &&& s.order_id is Some ==> events[0] == settled_event(reg, s.order_id->0, key, s.payer)
    &&& events[events.len() - 2] == (Event::NftMint { owner_id: s.owner, token_id: key })
}

/// What the ledger does with the answer to a mint.
pub open spec fn mint_answer(
    after: TlaRegistry,
    reg: TlaRegistry,
    r: Result<Vec<Event>, ContractError>,
    env: Env,
    s: MintSettlement,
    outcome: Result<MintOutcome, PromiseError>,
    earned: u128,
    charge: int,
    failed: RefundReason,
    silent: RefundReason,
) -> bool {
    let named = crate::account::named_account_of(s.tla_id, s.name@);
    let key = named->0;
    let rented = named is Some && reg.sub_accounts@.has(key);
    match outcome {
        Ok(MintOutcome::Active) => {
            &&& r is Ok <==> rented
            &&& !rented ==> r->Err_0 is SubAccountNotFound && after == reg
            &&& rented ==> {
                &&& mint_is_booked(after, reg, r->Ok_0@, s, key, earned, charge)
                &&& reg.recent_activity@.len() <= 256 ==> feed_gains(
                    after,
                    reg,
                    crate::types::ActivityKind::Rented,
                    key,
                    env,
                )
                &&& r->Ok_0@.last() == (Event::SubAccountRented {
                    full_name: key,
                    tla_id: s.tla_id,
                    owner: s.owner,
                    rent_yocto: s.rent_yocto,
                    expires_at: reg.sub_accounts@[key].expires_at,
                })
                &&& after == (TlaRegistry {
                    paid_order_ids: after.paid_order_ids,
                    sub_account_count: after.sub_account_count,
                    total_revenue: after.total_revenue,
                    pending_refunds: after.pending_refunds,
                    total_pending_refunds: after.total_pending_refunds,
                    recent_activity: after.recent_activity,
                    ..reg
                })
            }
        },
        _ => {
            let answered = outcome is Ok;
            &&& r is Ok
            &&& named is None ==> after == reg
            &&& named is None ==> r->Ok_0@ == (if s.order_id is Some {
                seq![strange_event(s.order_id->0, s.tla_id, s.name)]
            } else {
                Seq::<Event>::empty()
            })
            &&& named is Some ==> {
                &&& order_is_given_back(after, reg, s.order_id, key, s.payer, s.tla_id)
                &&& rental_is_undone(after, reg, key, s.tla_id, s.payer, s.attached_yocto)
                &&& after.total_revenue == reg.total_revenue
                &&& after.sub_account_count == reg.sub_account_count
                &&& answered || !rented ==> after.parked_names@ == reg.parked_names@
                &&& !answered && rented ==> after.parked_names@ == reg.parked_names@.insert(
                    s.name@ + seq!['.'] + s.tla_id@,
                    ParkedEntry { tla_id: s.tla_id, parked_at: env.now },
                )
                &&& after == (TlaRegistry {
                    sub_accounts: after.sub_accounts,
                    sub_accounts_by_owner: after.sub_accounts_by_owner,
                    sub_accounts_by_tla: after.sub_accounts_by_tla,
                    business_sub_count: after.business_sub_count,
                    pending_refunds: after.pending_refunds,
                    total_pending_refunds: after.total_pending_refunds,
                    paid_order_ids: after.paid_order_ids,
                    authority_mints: after.authority_mints,
                    parked_names: after.parked_names,
                    ..reg
                })
                &&& s.order_id is Some ==> r->Ok_0@[0] == given_back_event(reg, s.order_id->0, key, s.payer)
                &&& r->Ok_0@.skip(
                    if s.order_id is Some {
                        1
                    } else {
                        0
                    },
                ) == (if !rented {
                    Seq::<Event>::empty()
                } else if answered {
                    seq![
                        Event::RefundPending { account: s.payer, amount_yocto: s.attached_yocto, reason: failed },
                    ]
                } else {
                    seq![
                        Event::RefundPending { account: s.payer, amount_yocto: s.attached_yocto, reason: silent },
                        Event::MintFundingStranded {
                            full_name: key,
                            tla_id: s.tla_id,
                            payer: s.payer,
                            account_creation_deposit_yocto: reg.fee_config.account_creation_deposit_yocto,
                            reason: silent,
                        },
                    ]
                })
            }
        },
    }
}

/// Giving a mint back touches one count only, and takes one off it.
proof fn lemma_mint_returned(after: TlaRegistry, reg: TlaRegistry, payer: AccountId, tla_id: AccountId)
    requires
        after.authority_mints@ == crate::rental::mint_returned(reg.authority_mints@, payer, tla_id),
    ensures
        after.mints_used(payer, tla_id) == (if reg.mints_used(payer, tla_id) == 0 {
            0
        } else {
            reg.mints_used(payer, tla_id) - 1
        }),
        forall|a: AccountId, t: AccountId| (a, t) != (payer, tla_id) ==> #[trigger] after.mints_used(a, t)
            == reg.mints_used(a, t),
{
}

/// The answer to a mint, given that the ledger settled it.
proof fn lemma_mint_answer(
    after: TlaRegistry,
    reg: TlaRegistry,
    r: Result<Vec<Event>, ContractError>,
    env: Env,
    s: MintSettlement,
    outcome: Result<MintOutcome, PromiseError>,
    earned: u128,
    charge: u128,
    failed: RefundReason,
    silent: RefundReason,
)
    requires
        after.mint_settled(reg, r, env, s, outcome, earned, charge, failed, silent),
    ensures
        mint_answer(after, reg, r, env, s, outcome, earned, charge as int, failed, silent),
{
    let named = crate::account::named_account_of(s.tla_id, s.name@);
    let key = named->0;
    assert(crate::account::sub_account_text(s.tla_id, s.name@) =~= s.name@ + seq!['.'] + s.tla_id@);
    if s.order_id is Some {
        assert(in_flight(reg, s.order_id->0@, key, s.payer) == crate::callbacks::order_is_ours(
            reg,
            s.order_id->0,
            key,
            s.payer,
        ));
        if after.authority_mints@ == crate::rental::mint_returned(reg.authority_mints@, s.payer, s.tla_id) {
            lemma_mint_returned(after, reg, s.payer, s.tla_id);
        }
    }
    if r is Ok && named is Some {
        let events = r->Ok_0@;
        let at: int = if s.order_id is Some {
            1
        } else {
            0
        };
        if outcome == Ok::<MintOutcome, PromiseError>(MintOutcome::Active) {
            if reg.sub_accounts@.has(key) {
                let event = Event::SubAccountRented {
                    full_name: key,
                    tla_id: s.tla_id,
                    owner: s.owner,
                    rent_yocto: s.rent_yocto,
                    expires_at: reg.sub_accounts@[key].expires_at,
                };
                if reg.recent_activity@.len() <= 256 {
                    lemma_feed(after, reg, event, crate::types::ActivityKind::Rented, key, env);
                }
            }
        } else {
            let tail = if outcome is Ok {
                crate::callbacks::refund_events(reg, key, s.payer, s.attached_yocto, failed)
            } else {
                crate::callbacks::stranded_events(reg, key, s.tla_id, s.payer, s.attached_yocto, silent)
            };
            assert(events == crate::callbacks::release_events(reg, s.order_id, key, s.payer) + tail);
            assert(events.skip(at) =~= tail);
        }
    }
}

/// An event of a name's life gains the feed its record.
pub(crate) proof fn lemma_feed(after: TlaRegistry, reg: TlaRegistry, event: Event, kind: crate::types::ActivityKind, key: AccountId, env: Env)
    requires
        after.recent_activity@ == crate::activity::feed_after(reg.recent_activity@, event, env),
        event.activity() == Some((kind, key)),
        reg.recent_activity@.len() <= 256,
    ensures
        feed_gains(after, reg, kind, key, env),
{
    let record = crate::types::ActivityRecord {
        event: kind,
        account: key,
        block_height: env.height,
        block_timestamp: env.now,
    };
    crate::activity::feed_is_bounded(reg.recent_activity@, record);
}

/// A mint that was paid for here: of a success the rent is earned and the charge is the rent and the creation
/// deposit; of a failure everything is undone and the payer is owed all they attached; without an answer the name
/// is parked besides, since its account may exist.
pub proof fn a_mint_is_booked_or_undone(
    registry: &mut TlaRegistry,
    env: Env,
    s: MintSettlement,
    outcome: Result<MintOutcome, PromiseError>,
    r: Result<Vec<Event>, ContractError>,
)
    requires
        call_ensures(TlaRegistry::on_sub_account_created, (registry, &env, s, outcome), r),
    ensures
        mint_answer(
            *final(registry),
            *old(registry),
            r,
            env,
            s,
            outcome,
            s.rent_yocto,
            s.rent_yocto + old(registry).fee_config.account_creation_deposit_yocto,
            RefundReason::CreationFailed,
            RefundReason::MintChainFailed,
        ),
{
    lemma_mint_answer(
        *final(registry),
        *old(registry),
        r,
        env,
        s,
        outcome,
        s.rent_yocto,
        capped_u128(s.rent_yocto + old(registry).fee_config.account_creation_deposit_yocto),
        RefundReason::CreationFailed,
        RefundReason::MintChainFailed,
    );
}

/// A mint that was paid for elsewhere: of a success nothing is earned here and the charge is the creation deposit;
/// a failure, or no answer, undoes it as it undoes any other mint.
pub proof fn a_prepaid_mint_is_settled_or_undone(
    registry: &mut TlaRegistry,
    env: Env,
    s: MintSettlement,
    outcome: Result<MintOutcome, PromiseError>,
    r: Result<Vec<Event>, ContractError>,
)
    requires
        call_ensures(TlaRegistry::on_sub_account_created_paid, (registry, &env, s, outcome), r),
    ensures
        mint_answer(
            *final(registry),
            *old(registry),
            r,
            env,
            s,
            outcome,
            0,
            old(registry).fee_config.account_creation_deposit_yocto as int,
            RefundReason::PaidCreationFailed,
            RefundReason::PaidMintChainFailed,
        ),
{
    lemma_mint_answer(
        *final(registry),
        *old(registry),
        r,
        env,
        s,
        outcome,
        0,
        old(registry).fee_config.account_creation_deposit_yocto,
        RefundReason::PaidCreationFailed,
        RefundReason::PaidMintChainFailed,
    );
}

/// A re-rent whose rotation took place leaves the parked names, earns its rent and owes the rest back; any other
/// answer undoes it, and the name stays parked.
pub proof fn a_re_rent_is_booked_or_undone(
    registry: &mut TlaRegistry,
    env: Env,
    s: MintSettlement,
    swapped: Result<bool, PromiseError>,
    r: Result<Reply<PromiseOrValue<()>>, ContractError>,
)
    requires
        call_ensures(TlaRegistry::on_sub_account_re_rented, (registry, &env, s, swapped), r),
    ensures
        ({
            let reg = *old(registry);
            let after = *final(registry);
            let named = crate::account::named_account_of(s.tla_id, s.name@);
            let key = named->0;
            let rented = named is Some && reg.sub_accounts@.has(key);
            if swapped == Ok::<bool, PromiseError>(true) {
                &&& r is Ok <==> rented
                &&& !rented ==> r->Err_0 is SubAccountNotFound && after == reg
                &&& rented ==> {
                    &&& mint_is_booked(after, reg, r->Ok_0.events@, s, key, s.rent_yocto, s.rent_yocto as int)
                    &&& after.parked_names@ == reg.parked_names@.remove(s.name@ + seq!['.'] + s.tla_id@)
                    &&& reg.recent_activity@.len() <= 256 ==> feed_gains(
                        after,
                        reg,
                        crate::types::ActivityKind::ReRented,
                        key,
                        env,
                    )
                    &&& r->Ok_0.events@.last() == (Event::SubAccountReRented {
                        full_name: key,
                        tla_id: s.tla_id,
                        owner: s.owner,
                        rent_yocto: s.rent_yocto,
                        expires_at: reg.sub_accounts@[key].expires_at,
                    })
                    &&& after == (TlaRegistry {
                        paid_order_ids: after.paid_order_ids,
                        parked_names: after.parked_names,
                        sub_account_count: after.sub_account_count,
                        total_revenue: after.total_revenue,
                        pending_refunds: after.pending_refunds,
                        total_pending_refunds: after.total_pending_refunds,
                        recent_activity: after.recent_activity,
                        ..reg
                    })
                }
            } else {
                &&& r is Ok
                &&& named is None ==> after == reg
                &&& named is Some ==> re_rent_is_undone(after, reg, key, s.tla_id, s.order_id, s.payer, s.attached_yocto)
                &&& rented ==> r->Ok_0.events@.last() == (Event::RefundPending {
                    account: s.payer,
                    amount_yocto: s.attached_yocto,
                    reason: RefundReason::ReRentFailed,
                })
            }
        }),
{
    let reg = *old(registry);
    let after = *final(registry);
    let named = crate::account::named_account_of(s.tla_id, s.name@);
    let key = named->0;
    assert(crate::account::sub_account_text(s.tla_id, s.name@) =~= s.name@ + seq!['.'] + s.tla_id@);
    if s.order_id is Some && after.authority_mints@ == crate::rental::mint_returned(
        reg.authority_mints@,
        s.payer,
        s.tla_id,
    ) {
        lemma_mint_returned(after, reg, s.payer, s.tla_id);
    }
    if swapped == Ok::<bool, PromiseError>(true) && named is Some && reg.sub_accounts@.has(key) {
        let event = r->Ok_0.events@.last();
        if reg.recent_activity@.len() <= 256 {
            lemma_feed(after, reg, event, crate::types::ActivityKind::ReRented, key, env);
        }
    }
}

/// A re-rent that came to nothing: its order is given back and its row undone, and the name stays parked as it
/// was.
pub open spec fn re_rent_is_undone(
    after: TlaRegistry,
    reg: TlaRegistry,
    key: AccountId,
    tla_id: AccountId,
    order_id: Option<String>,
    payer: AccountId,
    attached: u128,
) -> bool {
    &&& order_is_given_back(after, reg, order_id, key, payer, tla_id)
    &&& rental_is_undone(after, reg, key, tla_id, payer, attached)
    &&& after == (TlaRegistry {
        sub_accounts: after.sub_accounts,
        sub_accounts_by_owner: after.sub_accounts_by_owner,
        sub_accounts_by_tla: after.sub_accounts_by_tla,
        business_sub_count: after.business_sub_count,
        pending_refunds: after.pending_refunds,
        total_pending_refunds: after.total_pending_refunds,
        paid_order_ids: after.paid_order_ids,
        authority_mints: after.authority_mints,
        ..reg
    })
}

/// A re-rent goes on exactly if every gated token answered with a zero balance; else it is undone and reported,
/// and the payer is owed all they attached.
pub proof fn a_re_rent_goes_on_over_an_empty_account(
    registry: &mut TlaRegistry,
    env: Env,
    pending: PendingReRent,
    allowlist: Vec<AccountId>,
    balances: Vec<Result<u128, PromiseError>>,
    r: Reply<PromiseOrValue<()>>,
)
    requires
        call_ensures(TlaRegistry::on_re_rent_balances_checked, (registry, &env, pending, allowlist, balances), r),
    ensures
        ({
            let reg = *old(registry);
            let after = *final(registry);
            let named = crate::account::named_account_of(pending.tla_id, pending.name@);
            let empty = allowlist@.len() == balances@.len() && forall|i: int|
                0 <= i < balances@.len() ==> #[trigger] balances@[i] == Ok::<u128, PromiseError>(0);
            if empty {
                &&& after == reg
                &&& r.events@.len() == 0
                &&& r.value matches PromiseOrValue::Promise(d)
                &&& rotates(
                    d.call,
                    reg.hos_extension,
                    pending.sub_account,
                    Some(pending.owner),
                    RotationCause::ReRent,
                    None,
                )
                &&& d.deposit == 0
                &&& d.callback matches Callback::SubAccountReRented(s)
                &&& settles(
                    s,
                    pending.tla_id,
                    pending.name,
                    pending.owner,
                    pending.payer,
                    pending.rent,
                    pending.attached,
                    pending.order_id,
                )
            } else {
                &&& r.value is Value
                &&& r.events@.last() matches Event::SubAccountSaleBlocked { full_name, .. }
                &&& full_name == crate::account::full_name_of(pending.tla_id, pending.name)
                &&& named is Some && reg.sub_accounts@.has(named->0) ==> r.events@[r.events@.len() - 2] == (
                Event::RefundPending {
                    account: pending.payer,
                    amount_yocto: pending.attached,
                    reason: RefundReason::ReRentBlocked,
                })
                &&& named is None ==> after == reg
                &&& named is Some ==> re_rent_is_undone(
                    after,
                    reg,
                    named->0,
                    pending.tla_id,
                    pending.order_id,
                    pending.payer,
                    pending.attached,
                )
            }
        }),
{
    crate::asset_gate::gate_clears_only_empty_accounts(allowlist@, balances@);
    let reg = *old(registry);
    let after = *final(registry);
    if after.authority_mints@ == crate::rental::mint_returned(
        reg.authority_mints@,
        pending.payer,
        pending.tla_id,
    ) {
        lemma_mint_returned(after, reg, pending.payer, pending.tla_id);
    }
}

// ---- the payout account -----------------------------------------------------------------------

/// The payout account is changed exactly by the owner, or by the licensee of a business account, with one yocto,
/// while nothing is paused, and never to the name itself. The wallet is asked first; the ledger waits.
pub proof fn a_payout_moves_by_its_owner(
    registry: &mut TlaRegistry,
    env: Env,
    tla_id: AccountId,
    name: String,
    payout: AccountId,
    r: Result<Reply<Dispatch>, ContractError>,
)
    requires
        call_ensures(TlaRegistry::set_payout_account, (registry, &env, tla_id, name, payout), r),
    ensures
        *final(registry) == *old(registry),
        ({
            let reg = *old(registry);
            let key = crate::account::named_account_of(tla_id, name@);
            let rented = key is Some && reg.sub_accounts@.has(key->0);
            let sub = reg.sub_accounts@[key->0];
            let entry = reg.tlas@[tla_id];
            let business = entry.tla_type is Business;
            match r {
                Ok(reply) => {
                    &&& env.deposit == 1
                    &&& !(reg.paused && env.now < reg.paused_until_ns)
                    &&& crate::types::name_refusal(name@) is None
                    &&& rented
                    &&& payout != key->0
                    &&& reg.tlas@.has(tla_id)
                    &&& business ==> entry.licensee == Some(env.predecessor)
                    &&& !business ==> sub.owner == env.predecessor
                    &&& reply.value.call == (Call::SetPayout {
                        extension: reg.hos_extension,
                        wallet: key->0,
                        payout_account: payout,
                        owner: sub.owner,
                    })
                    &&& reply.value.callback == (Callback::PayoutSet {
                        tla_id,
                        name,
                        new_payout_account: payout,
                        expected_owner: sub.owner,
                    })
                    &&& reply.value.deposit == 0
                },
                Err(e) => {
                    ||| e is RequiresOneYocto && env.deposit != 1
                    ||| e is Paused && reg.paused && env.now < reg.paused_until_ns
                    ||| crate::types::name_refusal(name@) == Some(e)
                    ||| e is PayoutAccountEqualsSubAccount && key == Some(payout)
                    ||| e is SubAccountNotFound && !rented
                    ||| e is TlaNotFound && !reg.tlas@.has(tla_id)
                    ||| e is OnlyLicensee && business && entry.licensee != Some(env.predecessor)
                    ||| e is OnlyOwner && !business && sub.owner != env.predecessor
                },
            }
        }),
{
}

/// The ledger takes a payout account over exactly if the wallet did and the name is still its owner's; nothing else
/// of the row changes.
pub proof fn a_payout_follows_the_wallet(
    registry: &mut TlaRegistry,
    tla_id: AccountId,
    name: String,
    payout: AccountId,
    expected_owner: AccountId,
    success: bool,
    r: Vec<Event>,
)
    requires
        call_ensures(TlaRegistry::on_payout_set, (registry, tla_id, name, payout, expected_owner, success), r),
    ensures
        ({
            let reg = *old(registry);
            let after = *final(registry);
            let key = crate::account::named_account_of(tla_id, name@);
            let held = key is Some && reg.sub_accounts@.has(key->0) && reg.sub_accounts@[key->0].owner
                == expected_owner;
            &&& success && held ==> {
                &&& after.sub_accounts@ == reg.sub_accounts@.insert(
                    key->0,
                    (SubAccountEntry { payout_account: payout, ..reg.sub_accounts@[key->0] }),
                )
                &&& after == (TlaRegistry { sub_accounts: after.sub_accounts, ..reg })
                &&& r@ == seq![Event::PayoutAccountUpdated { full_name: key->0, new_payout_account: payout }]
            }
            &&& !(success && held) ==> after == reg && r@ == seq![
                Event::PayoutAccountUpdateFailed {
                    full_name: crate::account::full_name_of(tla_id, name),
                    attempted: payout,
                },
            ]
        }),
{
}

// ---- refunds ----------------------------------------------------------------------------------

/// A refund is paid exactly if one is owed and the account can spend it: to the caller alone, all of it, and it is no
/// longer owed; nobody else's refund moves.
pub proof fn a_refund_is_paid_in_full(registry: &mut TlaRegistry, env: Env, other: AccountId, r: Result<Reply<Dispatch>, ContractError>)
    requires
        call_ensures(TlaRegistry::claim_refund, (registry, &env), r),
        other != env.predecessor,
    ensures
        ({
            let reg = *old(registry);
            let after = *final(registry);
            let owed = if reg.pending_refunds@.has(env.predecessor) {
                reg.pending_refunds@[env.predecessor]
            } else {
                0
            };
            let stake = env.storage_byte_cost * env.storage_usage;
            match r {
                Ok(reply) => {
                    &&& 0 < owed
                    &&& owed + stake <= env.balance
                    &&& reply.value.call == (Call::Transfer { to: env.predecessor })
                    &&& reply.value.deposit == owed
                    &&& reply.value.callback == (Callback::ClaimRefundSettled {
                        caller: env.predecessor,
                        amount: owed,
                    })
                    &&& after.refund_of(env.predecessor) == 0
                    &&& after.refund_of(other) == reg.refund_of(other)
                    &&& reg.total_pending_refunds >= owed ==> after.total_pending_refunds == reg.total_pending_refunds
                        - owed
                    &&& after == (TlaRegistry {
                        pending_refunds: after.pending_refunds,
                        total_pending_refunds: after.total_pending_refunds,
                        ..reg
                    })
                },
                Err(e) => {
                    &&& after == reg
                    &&& {
                        ||| e is NoPendingRefund && owed == 0
                        ||| e is InsufficientContractBalance && owed + stake > env.balance
                    }
                },
            }
        }),
{
    let stake = env.storage_byte_cost * env.storage_usage;
    assert(stake >= 0) by (nonlinear_arith)
        requires
            stake == env.storage_byte_cost * env.storage_usage,
    ;
}

/// A payment that failed is owed again to whom it was meant for; one that went through leaves the books alone.
pub proof fn a_failed_payment_is_owed_again(registry: &mut TlaRegistry, caller: AccountId, amount: u128, success: bool, other: AccountId, r: Vec<Event>)
    requires
        call_ensures(TlaRegistry::on_claim_refund_settled, (registry, caller, amount, success), r),
        other != caller,
    ensures
        success ==> *final(registry) == *old(registry) && r@.len() == 0,
        !success ==> {
            &&& final(registry).refund_of(caller) == capped_u128(old(registry).refund_of(caller) + amount)
            &&& final(registry).refund_of(other) == old(registry).refund_of(other)
            &&& final(registry).total_pending_refunds == capped_u128(old(registry).total_pending_refunds + amount)
            &&& r@ == seq![
                Event::RefundPending { account: caller, amount_yocto: amount, reason: RefundReason::TransferFailed },
            ]
            &&& *final(registry) == (TlaRegistry {
                pending_refunds: final(registry).pending_refunds,
                total_pending_refunds: final(registry).total_pending_refunds,
                ..*old(registry)
            })
        },
{
}

/// Owing an account more adds to its refund and to the total, and touches no other account.
pub proof fn a_refund_adds_up(registry: &mut TlaRegistry, account: AccountId, amount: u128, other: AccountId)
    requires
        call_ensures(TlaRegistry::add_pending_refund, (registry, &account, amount), ()),
        other != account,
    ensures
        final(registry).refund_of(account) == capped_u128(old(registry).refund_of(account) + amount),
        final(registry).refund_of(other) == old(registry).refund_of(other),
        final(registry).total_pending_refunds == capped_u128(old(registry).total_pending_refunds + amount),
        *final(registry) == (TlaRegistry {
            pending_refunds: final(registry).pending_refunds,
            total_pending_refunds: final(registry).total_pending_refunds,
            ..*old(registry)
        }),
{
}

/// An account may spend its balance beyond its storage stake, and nothing where the stake is more.
pub proof fn the_storage_stake_is_not_spent(env: Env, r: u128)
    requires
        call_ensures(Env::available_balance, (&env,), r),
    ensures
        env.balance >= env.storage_byte_cost * env.storage_usage ==> r == env.balance - env.storage_byte_cost
            * env.storage_usage,
        env.balance < env.storage_byte_cost * env.storage_usage ==> r == 0,
{
    let stake = env.storage_byte_cost * env.storage_usage;
    assert(stake >= 0) by (nonlinear_arith)
        requires
            stake == env.storage_byte_cost * env.storage_usage,
    ;
}

} // verus!
