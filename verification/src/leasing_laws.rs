//! Renting, renewing, and what is settled when the accounts around the registry have answered.
use vstd::prelude::*;

use crate::account::AccountId;
use crate::common::{capped_u128, capped_u64, OperatingState, RotationCause};
use crate::error::ContractError;
use crate::events::Event;
use crate::host::{Call, Callback, Dispatch, Env, MintSettlement, Reply};
use crate::settling_laws::{feed_gains, lemma_feed};
use crate::registry::TlaRegistry;
use crate::types::{ActivityKind, PaidOrderState, SubAccountEntry, TlaEntry};

verus! {

/// What a settlement says: who rents which name, who pays, for how much, out of how much, on which order.
pub open spec fn settles(
    s: MintSettlement,
    tla_id: AccountId,
    name: String,
    owner: AccountId,
    payer: AccountId,
    rent: u128,
    attached: u128,
    order_id: Option<String>,
) -> bool {
    &&& s.tla_id == tla_id
    &&& s.name == name
    &&& s.owner == owner
    &&& s.payer == payer
    &&& s.rent_yocto == rent
    &&& s.attached_yocto == attached
    &&& s.order_id == order_id
}

/// A dispatch that creates the account of a name for its owner, out of the creation deposit, and hears
/// of it by the given settlement.
pub open spec fn creates_account(d: Dispatch, registry: TlaRegistry, tla_id: AccountId, name: String, owner: AccountId, payout: AccountId, until: u64) -> bool {
    &&& d.call matches Call::CreateSubAccount { registrar, name: label, owner: o, payout_account, lease_until_ns }
    &&& registrar == tla_id
    &&& label == name
    &&& o == owner
    &&& payout_account == payout
    &&& lease_until_ns == until
    &&& d.deposit == registry.fee_config.account_creation_deposit_yocto
    &&& d.tgas == 90
    &&& d.callback_tgas == 15
}

/// A dispatch that hands a parked account to its renter, or first asks every gated token what the account
/// still holds.
pub open spec fn hands_out_parked_account(
    d: Dispatch,
    registry: TlaRegistry,
    key: AccountId,
    tla_id: AccountId,
    name: String,
    owner: AccountId,
    payout: AccountId,
    payer: AccountId,
    rent: u128,
    attached: u128,
    order_id: Option<String>,
) -> bool {
    &&& d.deposit == 0
    &&& if registry.ft_allowlist@.len() == 0 {
        &&& rotates(d.call, registry.hos_extension, key, Some(owner), RotationCause::ReRent, None)
        &&& d.callback matches Callback::SubAccountReRented(s)
        &&& settles(s, tla_id, name, owner, payer, rent, attached, order_id)
        &&& d.tgas == 45
        &&& d.callback_tgas == 15
    } else {
        &&& d.call matches Call::FtBalances { tokens, account }
        &&& tokens@ == registry.ft_allowlist@.keys
        &&& account == key
        &&& d.callback matches Callback::ReRentBalancesChecked(p)
        &&& p.tla_id == tla_id
        &&& p.name == name
        &&& p.owner == owner
        &&& p.payer == payer
        &&& p.payout_account == payout
        &&& p.rent == rent
        &&& p.attached == attached
        &&& p.sub_account == key
        &&& p.order_id == order_id
        &&& d.tgas == 6
        &&& d.callback_tgas == 85
    }
}

/// A call that has the wallet rotated to `new_owner`.
pub open spec fn rotates(
    call: Call,
    extension: AccountId,
    wallet: AccountId,
    new_owner: Option<AccountId>,
    cause: RotationCause,
    expected: Option<AccountId>,
) -> bool {
    &&& call matches Call::ForceTransfer { extension: e, wallet: w, new_owner: n, cause: c, expected: x }
    &&& e == extension
    &&& w == wallet
    &&& n == new_owner
    &&& c == cause
    &&& x == expected
}

// ---- renting ----------------------------------------------------------------------------------

/// A name is rented exactly if nothing is paused, the label can be minted, the name is free, a parked one owns
/// no names, the payer may name the owner, the account takes rentals and is the owner's own where it is a
/// business, there is a price, the deposit covers the rent and for a new account its creation, and the business
/// has room. Each refusal says which of these fails, and then nothing changes.
pub proof fn a_rental_takes_a_free_name_and_its_price(
    registry: &mut TlaRegistry,
    env: Env,
    tla_id: AccountId,
    name: String,
    owner_account: Option<AccountId>,
    r: Result<Reply<Dispatch>, ContractError>,
)
    requires
        call_ensures(TlaRegistry::rent_sub_account, (registry, &env, tla_id, name, owner_account), r),
    ensures
        ({
            let reg = *old(registry);
            let key = crate::account::sub_account_id(tla_id, name@);
            let parked = reg.parked_names@.has(name@ + seq!['.'] + tla_id@);
            let owner = if owner_account is Some {
                owner_account->0
            } else {
                env.predecessor
            };
            let may_name = owner == env.predecessor || reg.payment_authorities@.has(env.predecessor);
            let entry = reg.tlas@[tla_id];
            let until = if reg.suspended_until@.has(tla_id) {
                reg.suspended_until@[tla_id]
            } else {
                0
            };
            let business = entry.tla_type is Business;
            let usd = reg.rent_usd(tla_id, name@);
            let creation = if parked {
                0
            } else {
                reg.fee_config.account_creation_deposit_yocto as int
            };
            match r {
                Ok(_) => {
                    &&& !(reg.paused && env.now < reg.paused_until_ns)
                    &&& crate::types::mint_name_refusal(tla_id, name@) is None
                    &&& !reg.sub_accounts@.has(key)
                    &&& parked ==> !reg.sub_accounts_by_owner@.contains_key(key)
                    &&& may_name
                    &&& reg.tlas@.has(tla_id)
                    &&& entry.takes_rentals(until, env.now)
                    &&& business ==> entry.licensee == Some(owner)
                    &&& reg.price_refusal(env.now, usd) is None
                    &&& env.deposit >= capped_u128(reg.price_of(usd) + creation)
                    &&& business ==> reg.business_count(tla_id) < reg.business_cap(tla_id)
                },
                Err(e) => {
                    &&& *final(registry) == reg
                    &&& {
                        ||| e is Paused && reg.paused && env.now < reg.paused_until_ns
                        ||| crate::types::mint_name_refusal(tla_id, name@) == Some(e)
                        ||| e is SubAccountNameTaken && reg.sub_accounts@.has(key)
                        ||| e is NameStillHoldsNames && parked && reg.sub_accounts_by_owner@.contains_key(key)
                        ||| e is OnlyPaymentAuthority && !may_name
                        ||| e is TlaNotFound && !reg.tlas@.has(tla_id)
                        ||| e is TlaNotAcceptingRentals && !entry.takes_rentals(until, env.now)
                        ||| e is BusinessTlaMissingLicensee && business && entry.licensee is None
                        ||| e is OnlyLicensee && business && entry.licensee != Some(owner)
                        ||| reg.price_refusal(env.now, usd) == Some(e)
                        ||| e is InsufficientPayment && env.deposit < capped_u128(reg.price_of(usd) + creation)
                        ||| e is MaxBusinessSubsReached && business && reg.business_count(tla_id)
                            >= reg.business_cap(tla_id)
                    }
                },
            }
        }),
{
    assert(crate::account::sub_account_text(tla_id, name@) =~= name@ + seq!['.'] + tla_id@);
}

/// A rental writes the name's row for a whole term from now, keeps the indexes, counts under a business, and
/// books and refunds nothing yet: the settlement that it sends along carries the rent and what was attached.
pub proof fn a_rental_writes_its_row_and_waits(
    registry: &mut TlaRegistry,
    env: Env,
    tla_id: AccountId,
    name: String,
    owner_account: Option<AccountId>,
    r: Result<Reply<Dispatch>, ContractError>,
)
    requires
        call_ensures(TlaRegistry::rent_sub_account, (registry, &env, tla_id, name, owner_account), r),
        r is Ok,
    ensures
        ({
            let reg = *old(registry);
            let after = *final(registry);
            let d = r->Ok_0.value;
            let key = crate::account::sub_account_id(tla_id, name@);
            let owner = if owner_account is Some {
                owner_account->0
            } else {
                env.predecessor
            };
            let rent = reg.price_of(reg.rent_usd(tla_id, name@));
            let until = capped_u64(env.now + reg.lease_term_ns);
            &&& after.sub_accounts@ == reg.sub_accounts@.insert(
                key,
                (SubAccountEntry {
                    owner,
                    tla_id,
                    payout_account: owner,
                    rented_at: env.now,
                    expires_at: until,
                    retraction_at: None,
                }),
            )
            &&& reg.indexed() ==> after.indexed()
            &&& after.business_count(tla_id) == reg.business_count(tla_id) + (if reg.is_business(tla_id) {
                1int
            } else {
                0
            })
            &&& after == (TlaRegistry {
                sub_accounts: after.sub_accounts,
                sub_accounts_by_owner: after.sub_accounts_by_owner,
                sub_accounts_by_tla: after.sub_accounts_by_tla,
                business_sub_count: after.business_sub_count,
                ..reg
            })
            &&& r->Ok_0.events@.len() == 0
            &&& if reg.parked_names@.has(name@ + seq!['.'] + tla_id@) {
                hands_out_parked_account(
                    d,
                    reg,
                    key,
                    tla_id,
                    name,
                    owner,
                    owner,
                    env.predecessor,
                    rent,
                    env.deposit,
                    None,
                )
            } else {
                &&& creates_account(d, reg, tla_id, name, owner, owner, until)
                &&& d.callback matches Callback::SubAccountCreated(s)
                &&& settles(s, tla_id, name, owner, env.predecessor, rent, env.deposit, None)
            }
        }),
{
    assert(crate::account::sub_account_text(tla_id, name@) =~= name@ + seq!['.'] + tla_id@);
}

/// A prepaid rental is taken exactly if nothing is paused, a payment authority asks for it, the label can be
/// minted, the order id is new and of one to sixty-four bytes, the name is free, a parked one owns no names, the
/// payout goes elsewhere, the account takes rentals and is the beneficiary's own where it is a business, the
/// authority has a mint left under it, a new account's creation is paid for, and the business has room.
pub proof fn a_prepaid_rental_takes_an_order_and_an_allowance(
    registry: &mut TlaRegistry,
    env: Env,
    tla_id: AccountId,
    name: String,
    owner_account: AccountId,
    payout_account: AccountId,
    order_id: String,
    r: Result<Reply<Dispatch>, ContractError>,
)
    requires
        call_ensures(
            TlaRegistry::rent_sub_account_paid,
            (registry, &env, tla_id, name, owner_account, payout_account, order_id),
            r,
        ),
    ensures
        ({
            let reg = *old(registry);
            let key = crate::account::sub_account_id(tla_id, name@);
            let parked = reg.parked_names@.has(name@ + seq!['.'] + tla_id@);
            let entry = reg.tlas@[tla_id];
            let until = if reg.suspended_until@.has(tla_id) {
                reg.suspended_until@[tla_id]
            } else {
                0
            };
            let business = entry.tla_type is Business;
            let id_len = crate::types::byte_len(order_id@);
            let pair = (env.predecessor, tla_id);
            let used: int = if reg.authority_mints@.has(pair) {
                reg.authority_mints@[pair] as int
            } else {
                0
            };
            let unpaid = !parked && env.deposit < reg.fee_config.account_creation_deposit_yocto;
            match r {
                Ok(_) => {
                    &&& !(reg.paused && env.now < reg.paused_until_ns)
                    &&& reg.payment_authorities@.has(env.predecessor)
                    &&& crate::types::mint_name_refusal(tla_id, name@) is None
                    &&& 1 <= id_len <= 64
                    &&& !reg.paid_order_ids@.has(order_id@)
                    &&& !reg.sub_accounts@.has(key)
                    &&& parked ==> !reg.sub_accounts_by_owner@.contains_key(key)
                    &&& payout_account != key
                    &&& reg.tlas@.has(tla_id)
                    &&& entry.takes_rentals(until, env.now)
                    &&& business ==> entry.licensee == Some(payout_account)
                    &&& reg.authority_allowances@.has(pair)
                    &&& used < reg.authority_allowances@[pair]
                    &&& !unpaid
                    &&& business ==> reg.business_count(tla_id) < reg.business_cap(tla_id)
                },
                Err(e) => {
                    &&& *final(registry) == reg
                    &&& {
                        ||| e is Paused && reg.paused && env.now < reg.paused_until_ns
                        ||| e is OnlyPaymentAuthority && !reg.payment_authorities@.has(env.predecessor)
                        ||| crate::types::mint_name_refusal(tla_id, name@) == Some(e)
                        ||| e is InvalidOrderId && (id_len == 0 || id_len > 64)
                        ||| e is PaidOrderAlreadySettled && reg.paid_order_ids@.has(order_id@)
                        ||| e is SubAccountNameTaken && reg.sub_accounts@.has(key)
                        ||| e is NameStillHoldsNames && parked && reg.sub_accounts_by_owner@.contains_key(key)
                        ||| e is PayoutAccountEqualsSubAccount && payout_account == key
                        ||| e is TlaNotFound && !reg.tlas@.has(tla_id)
                        ||| e is TlaNotAcceptingRentals && !entry.takes_rentals(until, env.now)
                        ||| e is BusinessTlaMissingLicensee && business && entry.licensee is None
                        ||| e is OnlyLicensee && business && entry.licensee != Some(payout_account)
                        ||| e is AuthorityNotBoundToTla && !reg.authority_allowances@.has(pair)
                        ||| e is AuthorityMintAllowanceSpent && used >= reg.authority_allowances@[pair]
                        ||| e is InsufficientPayment && unpaid
                        ||| e is MaxBusinessSubsReached && business && reg.business_count(tla_id)
                            >= reg.business_cap(tla_id)
                    }
                },
            }
        }),
{
    assert(crate::account::sub_account_text(tla_id, name@) =~= name@ + seq!['.'] + tla_id@);
}

/// A prepaid rental writes the row, reserves the order for this name and payer from now, uses one mint of the
/// authority and no other's, reports an allowance that runs low, and sends a settlement without a rent.
pub proof fn a_prepaid_rental_reserves_its_order(
    registry: &mut TlaRegistry,
    env: Env,
    tla_id: AccountId,
    name: String,
    owner_account: AccountId,
    payout_account: AccountId,
    order_id: String,
    other: (AccountId, AccountId),
    r: Result<Reply<Dispatch>, ContractError>,
)
    requires
        call_ensures(
            TlaRegistry::rent_sub_account_paid,
            (registry, &env, tla_id, name, owner_account, payout_account, order_id),
            r,
        ),
        r is Ok,
        other != (env.predecessor, tla_id),
    ensures
        ({
            let reg = *old(registry);
            let after = *final(registry);
            let d = r->Ok_0.value;
            let events = r->Ok_0.events@;
            let key = crate::account::sub_account_id(tla_id, name@);
            let pair = (env.predecessor, tla_id);
            let until = capped_u64(env.now + reg.lease_term_ns);
            let left = reg.authority_allowances@[pair] - after.mints_used(pair.0, pair.1);
            &&& after.sub_accounts@ == reg.sub_accounts@.insert(
                key,
                (SubAccountEntry {
                    owner: owner_account,
                    tla_id,
                    payout_account,
                    rented_at: env.now,
                    expires_at: until,
                    retraction_at: None,
                }),
            )
            &&& reg.indexed() ==> after.indexed()
            &&& after.business_count(tla_id) == reg.business_count(tla_id) + (if reg.is_business(tla_id) {
                1int
            } else {
                0
            })
            &&& after.mints_used(pair.0, pair.1) == reg.mints_used(pair.0, pair.1) + 1
            &&& after.mints_used(other.0, other.1) == reg.mints_used(other.0, other.1)
            &&& after.paid_order_ids@ == reg.paid_order_ids@.insert(
                order_id@,
                PaidOrderState::InFlight { full_name: key, tla_id, payer: env.predecessor, started_at: env.now },
            )
            &&& after == (TlaRegistry {
                sub_accounts: after.sub_accounts,
                sub_accounts_by_owner: after.sub_accounts_by_owner,
                sub_accounts_by_tla: after.sub_accounts_by_tla,
                business_sub_count: after.business_sub_count,
                authority_mints: after.authority_mints,
                paid_order_ids: after.paid_order_ids,
                ..reg
            })
            &&& left > 10 ==> events.len() == 0
            &&& left <= 10 ==> events == seq![
                Event::PaymentAuthorityAllowanceLow { account: env.predecessor, tla_id, remaining: left as u64 },
            ]
            &&& if reg.parked_names@.has(name@ + seq!['.'] + tla_id@) {
                hands_out_parked_account(
                    d,
                    reg,
                    key,
                    tla_id,
                    name,
                    owner_account,
                    payout_account,
                    env.predecessor,
                    0,
                    env.deposit,
                    Some(order_id),
                )
            } else {
                &&& creates_account(d, reg, tla_id, name, owner_account, payout_account, until)
                &&& d.callback matches Callback::SubAccountCreatedPaid(s)
                &&& settles(s, tla_id, name, owner_account, env.predecessor, 0, env.deposit, Some(order_id))
            }
        }),
{
    assert(crate::account::sub_account_text(tla_id, name@) =~= name@ + seq!['.'] + tla_id@);
    let reg = *old(registry);
    let pair = (env.predecessor, tla_id);
    assert(reg.paid_rent_refusal(env, tla_id, name@, payout_account, order_id@) is None);
    assert(reg.mints_used(pair.0, pair.1) < u64::MAX);
    let after = *final(registry);
    assert(pair == (pair.0, pair.1));
    assert(after.authority_mints@.has(pair) && after.authority_mints@[pair] == reg.mints_used(pair.0, pair.1) + 1);
    assert(after.mints_used(pair.0, pair.1) == after.authority_mints@[pair]);
    assert(other == (other.0, other.1));
}

// ---- renewing ---------------------------------------------------------------------------------

/// A renewal is accepted exactly if the name is rented, within its grace, under no notice, its account is known
/// and not itself to be taken back, there is a price, and the deposit covers it. A pause does not matter.
pub proof fn a_renewal_takes_its_rent(
    registry: &mut TlaRegistry,
    env: Env,
    tla_id: AccountId,
    name: String,
    r: Result<Reply<Dispatch>, ContractError>,
)
    requires
        call_ensures(TlaRegistry::renew_sub_account, (registry, &env, tla_id, name), r),
    ensures
        ({
            let reg = *old(registry);
            let key = crate::account::named_account_of(tla_id, name@);
            let rented = key is Some && reg.sub_accounts@.has(key->0);
            let sub = reg.sub_accounts@[key->0];
            let late = env.now >= capped_u64(sub.expires_at + reg.grace_period_ns);
            let account_gone = reg.tlas@[tla_id].lifecycle_of(
                reg.clock_at(env.now),
                reg.suspension_of(tla_id),
                env.now,
            ) is Reclaimable;
            let usd = reg.rent_usd(tla_id, name@);
            match r {
                Ok(_) => {
                    &&& crate::types::name_refusal(name@) is None
                    &&& rented
                    &&& !late
                    &&& sub.retraction_at is None
                    &&& reg.tlas@.has(tla_id)
                    &&& !account_gone
                    &&& reg.price_refusal(env.now, usd) is None
                    &&& env.deposit >= reg.price_of(usd)
                },
                Err(e) => {
                    &&& *final(registry) == reg
                    &&& {
                        ||| crate::types::name_refusal(name@) == Some(e)
                        ||| e is SubAccountNotFound && !rented
                        ||| e is SubAccountPastGracePeriod && late
                        ||| e is RetractionPending && sub.retraction_at is Some
                        ||| e is TlaNotFound && !reg.tlas@.has(tla_id)
                        ||| e is TlaPastGracePeriod && account_gone
                        ||| reg.price_refusal(env.now, usd) == Some(e)
                        ||| e is InsufficientPayment && env.deposit < reg.price_of(usd)
                    }
                },
            }
        }),
{
}

/// An accepted renewal asks the wallet for one more term from now or from the end of the running one, whichever is
/// later, owes back at once what was attached beyond the rent, and books nothing before the wallet has answered.
pub proof fn a_renewal_asks_for_one_more_term(
    registry: &mut TlaRegistry,
    env: Env,
    tla_id: AccountId,
    name: String,
    other: AccountId,
    r: Result<Reply<Dispatch>, ContractError>,
)
    requires
        call_ensures(TlaRegistry::renew_sub_account, (registry, &env, tla_id, name), r),
        r is Ok,
        other != env.predecessor,
    ensures
        ({
            let reg = *old(registry);
            let after = *final(registry);
            let d = r->Ok_0.value;
            let key = crate::account::sub_account_id(tla_id, name@);
            let rent = reg.price_of(reg.rent_usd(tla_id, name@));
            let ends = reg.sub_accounts@[key].expires_at;
            let until = capped_u64((if env.now < ends {
                ends
            } else {
                env.now
            }) + reg.lease_term_ns);
            &&& d.call == (Call::PushLease {
                extension: reg.hos_extension,
                wallet: key,
                lease_until_ns: until,
                state: OperatingState::Active,
            })
            &&& d.callback == (Callback::SubAccountRenewed {
                tla_id,
                name,
                new_expires_at: until,
                payer: env.predecessor,
                rent,
            })
            &&& d.deposit == 0
            &&& d.tgas == 20
            &&& d.callback_tgas == 10
            &&& r->Ok_0.events@.len() == 0
            &&& after.refund_of(env.predecessor) == capped_u128(
                reg.refund_of(env.predecessor) + (env.deposit - rent),
            )
            &&& after.refund_of(other) == reg.refund_of(other)
            &&& after.total_pending_refunds == capped_u128(reg.total_pending_refunds + (env.deposit - rent))
            &&& after == (TlaRegistry {
                pending_refunds: after.pending_refunds,
                total_pending_refunds: after.total_pending_refunds,
                ..reg
            })
        }),
{
}

/// Once the wallet has taken the new lease, the term ends when the renewal said, or later where it already did,
/// and the rent is earned; otherwise the rent is owed back in full and the lease stays as it was.
pub proof fn a_renewal_is_earned_or_owed_back(
    registry: &mut TlaRegistry,
    env: Env,
    tla_id: AccountId,
    name: String,
    new_expires_at: u64,
    payer: AccountId,
    rent: u128,
    success: bool,
    other: AccountId,
    r: Vec<Event>,
)
    requires
        call_ensures(
            TlaRegistry::on_sub_account_renewed,
            (registry, &env, tla_id, name, new_expires_at, payer, rent, success),
            r,
        ),
        other != payer,
    ensures
        ({
            let reg = *old(registry);
            let after = *final(registry);
            let key = crate::account::named_account_of(tla_id, name@);
            if success && key is Some && reg.sub_accounts@.has(key->0) {
                let sub = reg.sub_accounts@[key->0];
                let now_sub = after.sub_accounts@[key->0];
                &&& now_sub.expires_at >= new_expires_at
                &&& now_sub.expires_at >= sub.expires_at
                &&& now_sub.expires_at == new_expires_at || now_sub.expires_at == sub.expires_at
                &&& now_sub == (SubAccountEntry { expires_at: now_sub.expires_at, ..sub })
                &&& after.sub_accounts@ == reg.sub_accounts@.insert(key->0, now_sub)
                &&& after.total_revenue == capped_u128(reg.total_revenue + rent)
                &&& r@ == seq![
                    Event::SubAccountRenewed {
                        full_name: key->0,
                        new_expires_at: now_sub.expires_at,
                        paid_yocto: rent,
                    },
                ]
                &&& reg.recent_activity@.len() <= 256 ==> feed_gains(after, reg, ActivityKind::Renewed, key->0, env)
                &&& after == (TlaRegistry {
                    sub_accounts: after.sub_accounts,
                    total_revenue: after.total_revenue,
                    recent_activity: after.recent_activity,
                    ..reg
                })
            } else {
                &&& after.refund_of(payer) == capped_u128(reg.refund_of(payer) + rent)
                &&& after.refund_of(other) == reg.refund_of(other)
                &&& after.total_pending_refunds == capped_u128(reg.total_pending_refunds + rent)
                &&& r@ == seq![
                    Event::RefundPending {
                        account: payer,
                        amount_yocto: rent,
                        reason: crate::events::RefundReason::RenewalFailed,
                    },
                ]
                &&& after == (TlaRegistry {
                    pending_refunds: after.pending_refunds,
                    total_pending_refunds: after.total_pending_refunds,
                    ..reg
                })
            }
        }),
{
    let reg = *old(registry);
    let after = *final(registry);
    let event = r@.last();
    let key = crate::account::named_account_of(tla_id, name@)->0;
    if reg.recent_activity@.len() <= 256 && event.activity() == Some((ActivityKind::Renewed, key))
        && after.recent_activity@ == crate::activity::feed_after(reg.recent_activity@, event, env) {
        lemma_feed(after, reg, event, ActivityKind::Renewed, key, env);
    }
}

// ---- top level accounts -----------------------------------------------------------------------

/// A business account is activated exactly by its licensee, while nothing is paused, from the registered state,
/// for the allocation fee and the first year's rent.
pub proof fn an_activation_takes_the_licensee_and_the_fee(
    registry: &mut TlaRegistry,
    env: Env,
    tla_id: AccountId,
    r: Result<Reply<()>, ContractError>,
)
    requires
        call_ensures(TlaRegistry::activate_tla, (registry, &env, tla_id), r),
    ensures
        ({
            let reg = *old(registry);
            let entry = reg.tlas@[tla_id];
            let usd = crate::rental::activation_price(tla_id, reg.fee_config, reg.terms_of(tla_id));
            match r {
                Ok(_) => {
                    &&& !(reg.paused && env.now < reg.paused_until_ns)
                    &&& reg.price_refusal(env.now, usd) is None
                    &&& env.deposit >= reg.price_of(usd)
                    &&& reg.tlas@.has(tla_id)
                    &&& entry.status is Registered
                    &&& entry.tla_type is Business
                    &&& entry.licensee == Some(env.predecessor)
                },
                Err(e) => {
                    &&& *final(registry) == reg
                    &&& {
                        ||| e is Paused && reg.paused && env.now < reg.paused_until_ns
                        ||| reg.price_refusal(env.now, usd) == Some(e)
                        ||| e is InsufficientPayment && env.deposit < reg.price_of(usd)
                        ||| e is TlaNotFound && !reg.tlas@.has(tla_id)
                        ||| e is TlaNotInRegisteredState && !(entry.status is Registered)
                        ||| e is WrongActivationEndpoint && entry.tla_type is Open
                        ||| e is BusinessTlaMissingLicensee && entry.licensee is None
                        ||| e is OnlyLicensee && entry.licensee != Some(env.predecessor)
                    }
                },
            }
        }),
{
}

/// An activated account is active for a year from now; its price is earned, what was attached beyond it is owed
/// back, and nothing else moves.
pub proof fn an_activation_buys_a_year(
    registry: &mut TlaRegistry,
    env: Env,
    tla_id: AccountId,
    other: AccountId,
    r: Result<Reply<()>, ContractError>,
)
    requires
        call_ensures(TlaRegistry::activate_tla, (registry, &env, tla_id), r),
        r is Ok,
        other != env.predecessor,
    ensures
        ({
            let reg = *old(registry);
            let after = *final(registry);
            let usd = crate::rental::activation_price(tla_id, reg.fee_config, reg.terms_of(tla_id));
            let paid = reg.price_of(usd);
            let until = capped_u64(env.now + 31_536_000_000_000_000);
            &&& after.tlas@ == reg.tlas@.insert(
                tla_id,
                (TlaEntry {
                    status: crate::types::TlaStatus::Active,
                    activated_at: env.now,
                    expires_at: until,
                    ..reg.tlas@[tla_id]
                }),
            )
            &&& after.total_revenue == capped_u128(reg.total_revenue + paid)
            &&& after.refund_of(env.predecessor) == capped_u128(
                reg.refund_of(env.predecessor) + (env.deposit - paid),
            )
            &&& after.refund_of(other) == reg.refund_of(other)
            &&& after.total_pending_refunds == capped_u128(reg.total_pending_refunds + (env.deposit - paid))
            &&& r->Ok_0.events@ == seq![Event::TlaActivated { tla_id, expires_at: until, paid_yocto: paid }]
            &&& after == (TlaRegistry {
                tlas: after.tlas,
                total_revenue: after.total_revenue,
                pending_refunds: after.pending_refunds,
                total_pending_refunds: after.total_pending_refunds,
                ..reg
            })
        }),
{
}

/// A top level account is renewed exactly while nothing is paused and it is active and within its grace, by its
/// licensee or, where it is open, by an admin, for its yearly rent.
pub proof fn an_account_is_renewed_for_its_rent(
    registry: &mut TlaRegistry,
    env: Env,
    tla_id: AccountId,
    r: Result<Reply<()>, ContractError>,
)
    requires
        call_ensures(TlaRegistry::renew_tla, (registry, &env, tla_id), r),
    ensures
        ({
            let reg = *old(registry);
            let entry = reg.tlas@[tla_id];
            let usd = crate::rental::tla_rent_of(tla_id, reg.fee_config, reg.terms_of(tla_id));
            let late = env.now >= capped_u64(entry.expires_at + reg.grace_period_ns);
            let business = entry.tla_type is Business;
            match r {
                Ok(_) => {
                    &&& !(reg.paused && env.now < reg.paused_until_ns)
                    &&& reg.price_refusal(env.now, usd) is None
                    &&& reg.tlas@.has(tla_id)
                    &&& entry.status is Active
                    &&& !late
                    &&& business ==> entry.licensee == Some(env.predecessor)
                    &&& !business ==> reg.admins@.has(env.predecessor)
                    &&& env.deposit >= reg.price_of(usd)
                },
                Err(e) => {
                    &&& *final(registry) == reg
                    &&& {
                        ||| e is Paused && reg.paused && env.now < reg.paused_until_ns
                        ||| reg.price_refusal(env.now, usd) == Some(e)
                        ||| e is TlaNotFound && !reg.tlas@.has(tla_id)
                        ||| e is TlaNotActive && !(entry.status is Active)
                        ||| e is TlaPastGracePeriod && late
                        ||| e is BusinessTlaMissingLicensee && business && entry.licensee is None
                        ||| e is OnlyLicensee && business && entry.licensee != Some(env.predecessor)
                        ||| e is OnlyAdmin && !business && !reg.admins@.has(env.predecessor)
                        ||| e is InsufficientPayment && env.deposit < reg.price_of(usd)
                    }
                },
            }
        }),
{
}

/// A renewed account gains a year from now or from the end of its running year, whichever is later; its price is
/// earned, what was attached beyond it is owed back, and nothing else moves.
pub proof fn a_renewed_account_gains_a_year(
    registry: &mut TlaRegistry,
    env: Env,
    tla_id: AccountId,
    other: AccountId,
    r: Result<Reply<()>, ContractError>,
)
    requires
        call_ensures(TlaRegistry::renew_tla, (registry, &env, tla_id), r),
        r is Ok,
        other != env.predecessor,
    ensures
        ({
            let reg = *old(registry);
            let after = *final(registry);
            let entry = reg.tlas@[tla_id];
            let paid = reg.price_of(crate::rental::tla_rent_of(tla_id, reg.fee_config, reg.terms_of(tla_id)));
            let until = capped_u64((if env.now < entry.expires_at {
                entry.expires_at
            } else {
                env.now
            }) + 31_536_000_000_000_000);
            &&& after.tlas@ == reg.tlas@.insert(tla_id, (TlaEntry { expires_at: until, ..entry }))
            &&& after.total_revenue == capped_u128(reg.total_revenue + paid)
            &&& after.refund_of(env.predecessor) == capped_u128(
                reg.refund_of(env.predecessor) + (env.deposit - paid),
            )
            &&& after.refund_of(other) == reg.refund_of(other)
            &&& after.total_pending_refunds == capped_u128(reg.total_pending_refunds + (env.deposit - paid))
            &&& r->Ok_0.events@ == seq![Event::TlaRenewed { tla_id, new_expires_at: until, paid_yocto: paid }]
            &&& after == (TlaRegistry {
                tlas: after.tlas,
                total_revenue: after.total_revenue,
                pending_refunds: after.pending_refunds,
                total_pending_refunds: after.total_pending_refunds,
                ..reg
            })
        }),
{
}

} // verus!
