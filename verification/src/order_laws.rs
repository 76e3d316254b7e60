//! In which order each call asks: of several reasons for a refusal the first one is told, and a call that finds none goes through.
use vstd::prelude::*;

use crate::account::AccountId;
use crate::common::{capped_u128, capped_u64};
use crate::error::{ContractError, InitError};
use crate::host::{Dispatch, Env, Reply};
use crate::registry::TlaRegistry;
use crate::types::{FeeConfig, PremiumCategory, TlaTerms, TlaType};

verus! {

/// A rental asks in this order: the pause, the label, whether the name is free, who it is for, the account, the rate, the payment and the cap of the business.
pub proof fn a_rental_is_refused_in_order(
    registry: &mut TlaRegistry,
    env: Env,
    tla_id: AccountId,
    name: String,
    owner_account: Option<AccountId>,
    r: Result<Reply<Dispatch>, ContractError>,
)
    requires
        call_ensures(TlaRegistry::rent_sub_account, (registry, &env, tla_id, name, owner_account), r),
    ensures
        ({
            let reg = *old(registry);
            let key = crate::account::sub_account_id(tla_id, name@);
            let tla = reg.tlas@[tla_id];
            let usd = reg.rent_usd(tla_id, name@);
            let parked = reg.parked(tla_id, name@);
            let owner = if owner_account is Some {
                owner_account->0
            } else {
                env.predecessor
            };
            let due = if parked {
                reg.price_of(usd)
            } else {
                capped_u128(reg.price_of(usd) + reg.fee_config.account_creation_deposit_yocto)
            };
            if reg.paused_at(env.now) {
                r is Err && r->Err_0 is Paused
            } else if crate::types::mint_name_refusal(tla_id, name@) is Some {
                r is Err && Some(r->Err_0) == crate::types::mint_name_refusal(tla_id, name@)
            } else if reg.sub_accounts@.has(key) {
                r is Err && r->Err_0 is SubAccountNameTaken
            } else if parked && reg.holds_names(key) {
                r is Err && r->Err_0 is NameStillHoldsNames
            } else if owner != env.predecessor && !reg.payment_authorities@.has(env.predecessor) {
                r is Err && r->Err_0 is OnlyPaymentAuthority
            } else if !reg.tlas@.has(tla_id) {
                r is Err && r->Err_0 is TlaNotFound
            } else if !tla.takes_rentals(reg.suspension_of(tla_id), env.now) {
                r is Err && r->Err_0 is TlaNotAcceptingRentals
            } else if tla.tla_type is Business && tla.licensee is None {
                r is Err && r->Err_0 is BusinessTlaMissingLicensee
            } else if tla.tla_type is Business && tla.licensee != Some(owner) {
                r is Err && r->Err_0 is OnlyLicensee
            } else if reg.near_usd_rate_micro == 0 {
                r is Err && r->Err_0 is RateNotInitialized
            } else if reg.near_usd_rate_micro < reg.fee_config.min_near_usd_rate_micro || reg.near_usd_rate_micro
                > reg.fee_config.max_near_usd_rate_micro {
                r is Err && r->Err_0 is RateOutOfBounds
            } else if env.now > reg.rate_updated_at && env.now - reg.rate_updated_at > reg.fee_config.max_rate_age_ns {
                r is Err && r->Err_0 is RateStale
            } else if usd > 100_000_000_000_000 {
                r is Err && r->Err_0 is FeeExceedsCap
            } else if env.deposit < due {
                r is Err && r->Err_0 is InsufficientPayment
            } else if reg.is_business(tla_id) && reg.business_count(tla_id) >= reg.business_cap(tla_id) {
                r is Err && r->Err_0 is MaxBusinessSubsReached
            } else {
                r is Ok
            }
        }),
{
}

/// A prepaid rental asks in this order: the pause, the authority, the label, the order, whether the name is free, the payout account, the account, the allowance, the deposit and the cap of the business.
pub proof fn a_prepaid_rental_is_refused_in_order(
    registry: &mut TlaRegistry,
    env: Env,
    tla_id: AccountId,
    name: String,
    owner_account: AccountId,
    payout_account: AccountId,
    order_id: String,
    r: Result<Reply<Dispatch>, ContractError>,
)
    requires
        call_ensures(TlaRegistry::rent_sub_account_paid, (registry, &env, tla_id, name, owner_account, payout_account, order_id), r),
    ensures
        ({
            let reg = *old(registry);
            let key = crate::account::sub_account_id(tla_id, name@);
            let tla = reg.tlas@[tla_id];
            let parked = reg.parked(tla_id, name@);
            let payer = env.predecessor;
            if reg.paused_at(env.now) {
                r is Err && r->Err_0 is Paused
            } else if !reg.payment_authorities@.has(payer) {
                r is Err && r->Err_0 is OnlyPaymentAuthority
            } else if crate::types::mint_name_refusal(tla_id, name@) is Some {
                r is Err && Some(r->Err_0) == crate::types::mint_name_refusal(tla_id, name@)
            } else if crate::types::byte_len(order_id@) == 0 || crate::types::byte_len(order_id@) > 64 {
                r is Err && r->Err_0 is InvalidOrderId
            } else if reg.paid_order_ids@.has(order_id@) {
                r is Err && r->Err_0 is PaidOrderAlreadySettled
            } else if reg.sub_accounts@.has(key) {
                r is Err && r->Err_0 is SubAccountNameTaken
            } else if parked && reg.holds_names(key) {
                r is Err && r->Err_0 is NameStillHoldsNames
            } else if payout_account == key {
                r is Err && r->Err_0 is PayoutAccountEqualsSubAccount
            } else if !reg.tlas@.has(tla_id) {
                r is Err && r->Err_0 is TlaNotFound
            } else if !tla.takes_rentals(reg.suspension_of(tla_id), env.now) {
                r is Err && r->Err_0 is TlaNotAcceptingRentals
            } else if tla.tla_type is Business && tla.licensee is None {
                r is Err && r->Err_0 is BusinessTlaMissingLicensee
            } else if tla.tla_type is Business && tla.licensee != Some(payout_account) {
                r is Err && r->Err_0 is OnlyLicensee
            } else if !reg.authority_allowances@.has((payer, tla_id)) {
                r is Err && r->Err_0 is AuthorityNotBoundToTla
            } else if reg.mints_used(payer, tla_id) >= reg.authority_allowances@[(payer, tla_id)] {
                r is Err && r->Err_0 is AuthorityMintAllowanceSpent
            } else if !parked && env.deposit < reg.fee_config.account_creation_deposit_yocto {
                r is Err && r->Err_0 is InsufficientPayment
            } else if reg.is_business(tla_id) && reg.business_count(tla_id) >= reg.business_cap(tla_id) {
                r is Err && r->Err_0 is MaxBusinessSubsReached
            } else {
                r is Ok
            }
        }),
{
}

/// A renewal asks in this order: the label, the name, its time, a notice, the account, its time, the rate and the payment.
pub proof fn a_renewal_is_refused_in_order(
    registry: &mut TlaRegistry,
    env: Env,
    tla_id: AccountId,
    name: String,
    r: Result<Reply<Dispatch>, ContractError>,
)
    requires
        call_ensures(TlaRegistry::renew_sub_account, (registry, &env, tla_id, name), r),
    ensures
        ({
            let reg = *old(registry);
            let key = crate::account::named_account_of(tla_id, name@);
            let sub = reg.sub_accounts@[key->0];
            let usd = reg.rent_usd(tla_id, name@);
            if crate::types::name_refusal(name@) is Some {
                r is Err && Some(r->Err_0) == crate::types::name_refusal(name@)
            } else if key is None || !reg.sub_accounts@.has(key->0) {
                r is Err && r->Err_0 is SubAccountNotFound
            } else if env.now >= capped_u64(sub.expires_at + reg.grace_period_ns) {
                r is Err && r->Err_0 is SubAccountPastGracePeriod
            } else if sub.retraction_at is Some {
                r is Err && r->Err_0 is RetractionPending
            } else if !reg.tlas@.has(tla_id) {
                r is Err && r->Err_0 is TlaNotFound
            } else if reg.tlas@[tla_id].lifecycle_of(reg.clock_at(env.now), reg.suspension_of(tla_id), env.now) is Reclaimable {
                r is Err && r->Err_0 is TlaPastGracePeriod
            } else if reg.near_usd_rate_micro == 0 {
                r is Err && r->Err_0 is RateNotInitialized
            } else if reg.near_usd_rate_micro < reg.fee_config.min_near_usd_rate_micro || reg.near_usd_rate_micro
                > reg.fee_config.max_near_usd_rate_micro {
                r is Err && r->Err_0 is RateOutOfBounds
            } else if env.now > reg.rate_updated_at && env.now - reg.rate_updated_at > reg.fee_config.max_rate_age_ns {
                r is Err && r->Err_0 is RateStale
            } else if usd > 100_000_000_000_000 {
                r is Err && r->Err_0 is FeeExceedsCap
            } else if env.deposit < reg.price_of(usd) {
                r is Err && r->Err_0 is InsufficientPayment
            } else {
                r is Ok
            }
        }),
{
}

/// An activation asks in this order: the pause, the rate, the payment, the account and its licensee.
pub proof fn an_activation_is_refused_in_order(
    registry: &mut TlaRegistry,
    env: Env,
    tla_id: AccountId,
    r: Result<Reply<()>, ContractError>,
)
    requires
        call_ensures(TlaRegistry::activate_tla, (registry, &env, tla_id), r),
    ensures
        ({
            let reg = *old(registry);
            let tla = reg.tlas@[tla_id];
            let usd = crate::rental::activation_price(tla_id, reg.fee_config, reg.terms_of(tla_id));
            if reg.paused_at(env.now) {
                r is Err && r->Err_0 is Paused
            } else if reg.near_usd_rate_micro == 0 {
                r is Err && r->Err_0 is RateNotInitialized
            } else if reg.near_usd_rate_micro < reg.fee_config.min_near_usd_rate_micro || reg.near_usd_rate_micro
                > reg.fee_config.max_near_usd_rate_micro {
                r is Err && r->Err_0 is RateOutOfBounds
            } else if env.now > reg.rate_updated_at && env.now - reg.rate_updated_at > reg.fee_config.max_rate_age_ns {
                r is Err && r->Err_0 is RateStale
            } else if usd > 100_000_000_000_000 {
                r is Err && r->Err_0 is FeeExceedsCap
            } else if env.deposit < reg.price_of(usd) {
                r is Err && r->Err_0 is InsufficientPayment
            } else if !reg.tlas@.has(tla_id) {
                r is Err && r->Err_0 is TlaNotFound
            } else if !(tla.status is Registered) {
                r is Err && r->Err_0 is TlaNotInRegisteredState
            } else if !(tla.tla_type is Business) {
                r is Err && r->Err_0 is WrongActivationEndpoint
            } else if tla.licensee is None {
                r is Err && r->Err_0 is BusinessTlaMissingLicensee
            } else if tla.licensee != Some(env.predecessor) {
                r is Err && r->Err_0 is OnlyLicensee
            } else {
                r is Ok
            }
        }),
{
}

/// The renewal of an account asks in this order: the pause, the rate, the account, its time, who renews it and the payment.
pub proof fn a_renewal_of_an_account_is_refused_in_order(
    registry: &mut TlaRegistry,
    env: Env,
    tla_id: AccountId,
    r: Result<Reply<()>, ContractError>,
)
    requires
        call_ensures(TlaRegistry::renew_tla, (registry, &env, tla_id), r),
    ensures
        ({
            let reg = *old(registry);
            let tla = reg.tlas@[tla_id];
            let usd = crate::rental::tla_rent_of(tla_id, reg.fee_config, reg.terms_of(tla_id));
            if reg.paused_at(env.now) {
                r is Err && r->Err_0 is Paused
            } else if reg.near_usd_rate_micro == 0 {
                r is Err && r->Err_0 is RateNotInitialized
            } else if reg.near_usd_rate_micro < reg.fee_config.min_near_usd_rate_micro || reg.near_usd_rate_micro
                > reg.fee_config.max_near_usd_rate_micro {
                r is Err && r->Err_0 is RateOutOfBounds
            } else if env.now > reg.rate_updated_at && env.now - reg.rate_updated_at > reg.fee_config.max_rate_age_ns {
                r is Err && r->Err_0 is RateStale
            } else if usd > 100_000_000_000_000 {
                r is Err && r->Err_0 is FeeExceedsCap
            } else if !reg.tlas@.has(tla_id) {
                r is Err && r->Err_0 is TlaNotFound
            } else if !(tla.status is Active) {
                r is Err && r->Err_0 is TlaNotActive
            } else if env.now >= capped_u64(tla.expires_at + reg.grace_period_ns) {
                r is Err && r->Err_0 is TlaPastGracePeriod
            } else if tla.tla_type is Business && tla.licensee is None {
                r is Err && r->Err_0 is BusinessTlaMissingLicensee
            } else if tla.tla_type is Business && tla.licensee != Some(env.predecessor) {
                r is Err && r->Err_0 is OnlyLicensee
            } else if tla.tla_type is Open && !reg.admins@.has(env.predecessor) {
                r is Err && r->Err_0 is OnlyAdmin
            } else if env.deposit < reg.price_of(usd) {
                r is Err && r->Err_0 is InsufficientPayment
            } else {
                r is Ok
            }
        }),
{
}

/// A new payout account asks in this order: the yocto, the pause, the label, that it is not the name itself, the name, the account and who asks.
pub proof fn a_payout_account_is_refused_in_order(
    registry: &mut TlaRegistry,
    env: Env,
    tla_id: AccountId,
    name: String,
    new_payout_account: AccountId,
    r: Result<Reply<Dispatch>, ContractError>,
)
    requires
        call_ensures(TlaRegistry::set_payout_account, (registry, &env, tla_id, name, new_payout_account), r),
    ensures
        ({
            let reg = *old(registry);
            let key = crate::account::named_account_of(tla_id, name@);
            let sub = reg.sub_accounts@[key->0];
            if env.deposit != 1 {
                r is Err && r->Err_0 is RequiresOneYocto
            } else if reg.paused_at(env.now) {
                r is Err && r->Err_0 is Paused
            } else if crate::types::name_refusal(name@) is Some {
                r is Err && Some(r->Err_0) == crate::types::name_refusal(name@)
            } else if key == Some(new_payout_account) {
                r is Err && r->Err_0 is PayoutAccountEqualsSubAccount
            } else if key is None || !reg.sub_accounts@.has(key->0) {
                r is Err && r->Err_0 is SubAccountNotFound
            } else if !reg.tlas@.has(tla_id) {
                r is Err && r->Err_0 is TlaNotFound
            } else if reg.tlas@[tla_id].tla_type is Business && reg.tlas@[tla_id].licensee != Some(env.predecessor) {
                r is Err && r->Err_0 is OnlyLicensee
            } else if !(reg.tlas@[tla_id].tla_type is Business) && env.predecessor != sub.owner {
                r is Err && r->Err_0 is OnlyOwner
            } else {
                r is Ok
            }
        }),
{
}

/// A reclaim asks in this order: the pause, the label, whether one is under way, the name, its account, its time and a notice that still runs.
pub proof fn a_reclaim_is_refused_in_order(
    registry: &mut TlaRegistry,
    env: Env,
    tla_id: AccountId,
    name: String,
    r: Result<Reply<Dispatch>, ContractError>,
)
    requires
        call_ensures(TlaRegistry::reclaim_finalize, (registry, &env, tla_id, name), r),
    ensures
        ({
            let reg = *old(registry);
            let key = crate::account::named_account_of(tla_id, name@);
            let sub = reg.sub_accounts@[key->0];
            if reg.paused_at(env.now) {
                r is Err && r->Err_0 is Paused
            } else if crate::types::name_refusal(name@) is Some {
                r is Err && Some(r->Err_0) == crate::types::name_refusal(name@)
            } else if key is Some && reg.reclaim_pending@.has(key->0) {
                r is Err && r->Err_0 is ReclaimInProgress
            } else if key is None {
                r is Err && r->Err_0 is InvalidSubAccountId
            } else if !reg.sub_accounts@.has(key->0) {
                r is Err && r->Err_0 is SubAccountNotFound
            } else if sub.tla_id != tla_id {
                r is Err && r->Err_0 is SubAccountTlaMismatch
            } else if !reg.tlas@.has(tla_id) {
                r is Err && r->Err_0 is TlaNotFound
            } else if !(reg.name_lifecycle(env.now, tla_id, key->0) is Reclaimable) {
                r is Err && r->Err_0 is SubAccountNotReclaimable
            } else if sub.retraction_at is Some && env.now < sub.expires_at && env.now < capped_u64(
                sub.retraction_at->0 + reg.fee_config.retraction_notice_ns,
            ) {
                r is Err && r->Err_0 is RetractionPending
            } else {
                r is Ok
            }
        }),
{
}

/// A sweep of the balance asks for the yocto and the label first; a parked name then passes, and any other must be reclaimable.
pub proof fn a_sweep_of_near_is_refused_in_order(
    registry: &mut TlaRegistry,
    env: Env,
    tla_id: AccountId,
    name: String,
    r: Result<Reply<Dispatch>, ContractError>,
)
    requires
        call_ensures(TlaRegistry::reclaim_sweep_near, (registry, &env, tla_id, name), r),
    ensures
        ({
            let reg = *old(registry);
            let key = crate::account::named_account_of(tla_id, name@);
            let sub = reg.sub_accounts@[key->0];
            if env.deposit != 1 {
                r is Err && r->Err_0 is RequiresOneYocto
            } else if crate::types::name_refusal(name@) is Some {
                r is Err && Some(r->Err_0) == crate::types::name_refusal(name@)
            } else if key is Some && reg.parked(tla_id, name@) {
                r is Ok
            } else if key is None {
                r is Err && r->Err_0 is InvalidSubAccountId
            } else if !reg.sub_accounts@.has(key->0) {
                r is Err && r->Err_0 is SubAccountNotFound
            } else if sub.tla_id != tla_id {
                r is Err && r->Err_0 is SubAccountTlaMismatch
            } else if !reg.tlas@.has(tla_id) {
                r is Err && r->Err_0 is TlaNotFound
            } else if !(reg.name_lifecycle(env.now, tla_id, key->0) is Reclaimable) {
                r is Err && r->Err_0 is SubAccountNotReclaimable
            } else {
                r is Ok
            }
        }),
{
}

/// A sweep of tokens asks for the label, the deposit and the token first; a parked name then passes, and any other must be reclaimable.
pub proof fn a_sweep_of_tokens_is_refused_in_order(
    registry: &mut TlaRegistry,
    env: Env,
    tla_id: AccountId,
    name: String,
    ft: AccountId,
    r: Result<Reply<Dispatch>, ContractError>,
)
    requires
        call_ensures(TlaRegistry::reclaim_sweep_ft, (registry, &env, tla_id, name, ft), r),
    ensures
        ({
            let reg = *old(registry);
            let key = crate::account::named_account_of(tla_id, name@);
            let sub = reg.sub_accounts@[key->0];
            if crate::types::name_refusal(name@) is Some {
                r is Err && Some(r->Err_0) == crate::types::name_refusal(name@)
            } else if env.deposit < crate::reclaim::SWEEP_ATTACHED_REQUIRED {
                r is Err && r->Err_0 is InsufficientPayment
            } else if !reg.sweepable_tokens@.has(ft) {
                r is Err && r->Err_0 is TokenNotInAllowlist
            } else if key is Some && reg.parked(tla_id, name@) {
                r is Ok
            } else if key is None {
                r is Err && r->Err_0 is InvalidSubAccountId
            } else if !reg.sub_accounts@.has(key->0) {
                r is Err && r->Err_0 is SubAccountNotFound
            } else if sub.tla_id != tla_id {
                r is Err && r->Err_0 is SubAccountTlaMismatch
            } else if !reg.tlas@.has(tla_id) {
                r is Err && r->Err_0 is TlaNotFound
            } else if !(reg.name_lifecycle(env.now, tla_id, key->0) is Reclaimable) {
                r is Err && r->Err_0 is SubAccountNotReclaimable
            } else {
                r is Ok
            }
        }),
{
}

/// A transfer asks in this order: the yocto, the label, a reclaim, the name, its owner and its receiver; what a venue holds then leaves freely, and else the pause, the notice, the account and the lease are asked.
pub proof fn a_transfer_is_refused_in_order(
    registry: &mut TlaRegistry,
    env: Env,
    tla_id: AccountId,
    name: String,
    new_owner: AccountId,
    r: Result<Reply<Dispatch>, ContractError>,
)
    requires
        call_ensures(TlaRegistry::transfer_sub_account, (registry, &env, tla_id, name, new_owner), r),
    ensures
        ({
            let reg = *old(registry);
            let key = crate::account::named_account_of(tla_id, name@);
            let sub = reg.sub_accounts@[key->0];
            if env.deposit != 1 {
                r is Err && r->Err_0 is RequiresOneYocto
            } else if crate::types::name_refusal(name@) is Some {
                r is Err && Some(r->Err_0) == crate::types::name_refusal(name@)
            } else if key is Some && reg.reclaim_pending@.has(key->0) {
                r is Err && r->Err_0 is ReclaimInProgress
            } else if key is None || !reg.sub_accounts@.has(key->0) {
                r is Err && r->Err_0 is SubAccountNotFound
            } else if sub.tla_id != tla_id {
                r is Err && r->Err_0 is SubAccountTlaMismatch
            } else if env.predecessor != sub.owner {
                r is Err && r->Err_0 is OnlyOwner
            } else if new_owner == sub.owner {
                r is Err && r->Err_0 is SameOwner
            } else if new_owner == key->0 {
                r is Err && r->Err_0 is TransferToSubAccount
            } else if reg.venues@.has(sub.owner) {
                r is Ok
            } else if reg.paused_at(env.now) {
                r is Err && r->Err_0 is Paused
            } else if sub.retraction_at is Some {
                r is Err && r->Err_0 is RetractionPending
            } else if !reg.tlas@.has(tla_id) {
                r is Err && r->Err_0 is TlaNotFound
            } else if reg.tlas@[tla_id].tla_type is Business {
                r is Err && r->Err_0 is BusinessSubNotResellable
            } else if !(reg.name_lifecycle(env.now, tla_id, key->0) is Active) {
                r is Err && r->Err_0 is SubAccountNotSellable
            } else if !reg.venues@.has(new_owner) && reg.sub_accounts@.has(new_owner) {
                r is Err && r->Err_0 is TransferToRegisteredName
            } else {
                r is Ok
            }
        }),
{
}

/// A recovery asks in this order: the yocto, the authority, the pause, the label, a reclaim, the name, its owner and its receiver.
pub proof fn a_recovery_is_refused_in_order(
    registry: &mut TlaRegistry,
    env: Env,
    tla_id: AccountId,
    name: String,
    new_owner: AccountId,
    expected_owner: AccountId,
    r: Result<Reply<Dispatch>, ContractError>,
)
    requires
        call_ensures(TlaRegistry::recover_sub_account, (registry, &env, tla_id, name, new_owner, expected_owner), r),
    ensures
        ({
            let reg = *old(registry);
            let key = crate::account::named_account_of(tla_id, name@);
            let sub = reg.sub_accounts@[key->0];
            if env.deposit != 1 {
                r is Err && r->Err_0 is RequiresOneYocto
            } else if !reg.recovery_authorities@.has(env.predecessor) {
                r is Err && r->Err_0 is OnlyRecoveryAuthority
            } else if reg.paused_at(env.now) {
                r is Err && r->Err_0 is Paused
            } else if crate::types::name_refusal(name@) is Some {
                r is Err && Some(r->Err_0) == crate::types::name_refusal(name@)
            } else if key is Some && reg.reclaim_pending@.has(key->0) {
                r is Err && r->Err_0 is ReclaimInProgress
            } else if key is None || !reg.sub_accounts@.has(key->0) {
                r is Err && r->Err_0 is SubAccountNotFound
            } else if sub.owner != expected_owner {
                r is Err && r->Err_0 is OwnerMoved
            } else if new_owner == sub.owner {
                r is Err && r->Err_0 is SameOwner
            } else if new_owner == key->0 {
                r is Err && r->Err_0 is TransferToSubAccount
            } else if reg.sub_accounts@.has(new_owner) {
                r is Err && r->Err_0 is TransferToRegisteredName
            } else {
                r is Ok
            }
        }),
{
}

/// A registration asks for the council first, then whether the account is new, then for its licensee.
pub proof fn a_registration_is_refused_in_order(
    registry: &mut TlaRegistry,
    env: Env,
    tla_id: AccountId,
    tla_type: TlaType,
    premium_category: PremiumCategory,
    licensee: Option<AccountId>,
    r: Result<Reply<()>, ContractError>,
)
    requires
        call_ensures(TlaRegistry::register_tla, (registry, &env, tla_id, tla_type, premium_category, licensee), r),
    ensures
        ({
            let reg = *old(registry);
            if env.deposit != 1 {
                r is Err && r->Err_0 is RequiresOneYocto
            } else if env.predecessor != reg.council {
                r is Err && r->Err_0 is OnlyCouncil
            } else if reg.tlas@.has(tla_id) {
                r is Err && r->Err_0 is TlaAlreadyRegistered
            } else if tla_type is Business && licensee is None {
                r is Err && r->Err_0 is BusinessTlaRequiresLicensee
            } else {
                r is Ok
            }
        }),
{
}

/// The activation of an open account asks for an admin first, then for the account, its state and its kind.
pub proof fn an_open_activation_is_refused_in_order(
    registry: &mut TlaRegistry,
    env: Env,
    tla_id: AccountId,
    r: Result<Reply<()>, ContractError>,
)
    requires
        call_ensures(TlaRegistry::activate_open_tla, (registry, &env, tla_id), r),
    ensures
        ({
            let reg = *old(registry);
            let tla = reg.tlas@[tla_id];
            if env.deposit != 1 {
                r is Err && r->Err_0 is RequiresOneYocto
            } else if !reg.admins@.has(env.predecessor) {
                r is Err && r->Err_0 is OnlyAdmin
            } else if !reg.tlas@.has(tla_id) {
                r is Err && r->Err_0 is TlaNotFound
            } else if !(tla.status is Registered) {
                r is Err && r->Err_0 is TlaNotInRegisteredState
            } else if !(tla.tla_type is Open) {
                r is Err && r->Err_0 is WrongActivationEndpoint
            } else {
                r is Ok
            }
        }),
{
}

/// A suspension asks for an admin first, then for the account and its state.
pub proof fn a_suspension_is_refused_in_order(
    registry: &mut TlaRegistry,
    env: Env,
    tla_id: AccountId,
    r: Result<Reply<()>, ContractError>,
)
    requires
        call_ensures(TlaRegistry::suspend_tla, (registry, &env, tla_id), r),
    ensures
        ({
            let reg = *old(registry);
            if env.deposit != 1 {
                r is Err && r->Err_0 is RequiresOneYocto
            } else if !reg.admins@.has(env.predecessor) {
                r is Err && r->Err_0 is OnlyAdmin
            } else if !reg.tlas@.has(tla_id) {
                r is Err && r->Err_0 is TlaNotFound
            } else if reg.tlas@[tla_id].status is Registered {
                r is Err && r->Err_0 is TlaNotActive
            } else {
                r is Ok
            }
        }),
{
}

/// The end of a suspension asks for an admin first, then for the account, its state and its licensee.
pub proof fn a_lifted_suspension_is_refused_in_order(
    registry: &mut TlaRegistry,
    env: Env,
    tla_id: AccountId,
    r: Result<Reply<()>, ContractError>,
)
    requires
        call_ensures(TlaRegistry::unsuspend_tla, (registry, &env, tla_id), r),
    ensures
        ({
            let reg = *old(registry);
            let tla = reg.tlas@[tla_id];
            if env.deposit != 1 {
                r is Err && r->Err_0 is RequiresOneYocto
            } else if !reg.admins@.has(env.predecessor) {
                r is Err && r->Err_0 is OnlyAdmin
            } else if !reg.tlas@.has(tla_id) {
                r is Err && r->Err_0 is TlaNotFound
            } else if !(tla.status is Suspended) {
                r is Err && r->Err_0 is TlaNotSuspended
            } else if tla.tla_type is Business && tla.licensee is None {
                r is Err && r->Err_0 is BusinessTlaMissingLicensee
            } else {
                r is Ok
            }
        }),
{
}

/// A withdrawal asks for the yocto and the caller first, then for the amount, the revenue and the balance.
pub proof fn a_withdrawal_is_refused_in_order(
    registry: &mut TlaRegistry,
    env: Env,
    amount: u128,
    r: Result<Reply<()>, ContractError>,
)
    requires
        call_ensures(TlaRegistry::withdraw, (registry, &env, amount), r),
    ensures
        ({
            let reg = *old(registry);
            if env.deposit != 1 {
                r is Err && r->Err_0 is RequiresOneYocto
            } else if env.predecessor != reg.treasury && env.predecessor != reg.council {
                r is Err && r->Err_0 is OnlyTreasuryOrCouncil
            } else if amount == 0 {
                r is Err && r->Err_0 is WithdrawalAmountZero
            } else if amount > reg.total_revenue {
                r is Err && r->Err_0 is InsufficientRevenue
            } else if capped_u128(reg.total_pending_refunds + amount) > env.spendable() {
                r is Err && r->Err_0 is InsufficientContractBalance
            } else {
                r is Ok
            }
        }),
{
}

/// The release of an order asks for an admin first, then for the order, its state and its age.
pub proof fn a_release_of_an_order_is_refused_in_order(
    registry: &mut TlaRegistry,
    env: Env,
    order_id: String,
    r: Result<Reply<()>, ContractError>,
)
    requires
        call_ensures(TlaRegistry::admin_release_paid_order, (registry, &env, order_id), r),
    ensures
        ({
            let reg = *old(registry);
            let order = reg.paid_order_ids@[order_id@];
            if env.deposit != 1 {
                r is Err && r->Err_0 is RequiresOneYocto
            } else if !reg.admins@.has(env.predecessor) {
                r is Err && r->Err_0 is OnlyAdmin
            } else if !reg.paid_order_ids@.has(order_id@) {
                r is Err && r->Err_0 is PaidOrderNotFound
            } else if order is Settled {
                r is Err && r->Err_0 is PaidOrderAlreadySettled
            } else if env.now < order->started_at || env.now - order->started_at < crate::admin::MANUAL_ORDER_RELEASE_AFTER_NS {
                r is Err && r->Err_0 is PaidOrderStillInFlight
            } else {
                r is Ok
            }
        }),
{
}

/// A takeover of the council asks for the yocto, the heir and the delay.
pub proof fn a_takeover_of_the_council_is_refused_in_order(
    registry: &mut TlaRegistry,
    env: Env,
    r: Result<Reply<()>, ContractError>,
)
    requires
        call_ensures(TlaRegistry::commit_council_rotation, (registry, &env), r),
    ensures
        ({
            let reg = *old(registry);
            if env.deposit != 1 {
                r is Err && r->Err_0 is RequiresOneYocto
            } else if reg.pending_council is None {
                r is Err && r->Err_0 is NoCouncilRotationPending
            } else if env.predecessor != reg.pending_council->0 {
                r is Err && r->Err_0 is OnlyPendingCouncil
            } else if reg.pending_council_at is None {
                r is Err && r->Err_0 is NoCouncilRotationPending
            } else if env.now < capped_u64(reg.pending_council_at->0 + reg.upgrade_delay_ns) {
                r is Err && r->Err_0 is CouncilRotationTooYoung
            } else {
                r is Ok
            }
        }),
{
}

/// A takeover of the treasury asks for the yocto and the heir.
pub proof fn a_takeover_of_the_treasury_is_refused_in_order(
    registry: &mut TlaRegistry,
    env: Env,
    r: Result<Reply<()>, ContractError>,
)
    requires
        call_ensures(TlaRegistry::commit_treasury_rotation, (registry, &env), r),
    ensures
        ({
            let reg = *old(registry);
            if env.deposit != 1 {
                r is Err && r->Err_0 is RequiresOneYocto
            } else if reg.pending_treasury is None {
                r is Err && r->Err_0 is NoTreasuryRotationPending
            } else if env.predecessor != reg.pending_treasury->0 {
                r is Err && r->Err_0 is OnlyPendingTreasury
            } else {
                r is Ok
            }
        }),
{
}

/// The heir of the council is asked for after the council: another account than the council and than the registry.
pub proof fn an_heir_of_the_council_is_refused_in_order(
    registry: &mut TlaRegistry,
    env: Env,
    new_council: AccountId,
    r: Result<Reply<()>, ContractError>,
)
    requires
        call_ensures(TlaRegistry::approve_council_rotation, (registry, &env, new_council), r),
    ensures
        ({
            let reg = *old(registry);
            if env.deposit != 1 {
                r is Err && r->Err_0 is RequiresOneYocto
            } else if env.predecessor != reg.council {
                r is Err && r->Err_0 is OnlyCouncil
            } else if new_council == reg.council {
                r is Err && r->Err_0 is CouncilUnchanged
            } else if new_council == env.current {
                r is Err && r->Err_0 is CouncilIsSelf
            } else {
                r is Ok
            }
        }),
{
}

/// The heir of the treasury is asked for after the council: another account than the treasury and than the registry.
pub proof fn an_heir_of_the_treasury_is_refused_in_order(
    registry: &mut TlaRegistry,
    env: Env,
    new_treasury: AccountId,
    r: Result<Reply<()>, ContractError>,
)
    requires
        call_ensures(TlaRegistry::approve_treasury_rotation, (registry, &env, new_treasury), r),
    ensures
        ({
            let reg = *old(registry);
            if env.deposit != 1 {
                r is Err && r->Err_0 is RequiresOneYocto
            } else if env.predecessor != reg.council {
                r is Err && r->Err_0 is OnlyCouncil
            } else if new_treasury == reg.treasury {
                r is Err && r->Err_0 is TreasuryUnchanged
            } else if new_treasury == env.current {
                r is Err && r->Err_0 is TreasuryIsSelf
            } else {
                r is Ok
            }
        }),
{
}

/// A notice asks in this order: the yocto, the pause, the label, the account, its kind, its licensee, the name and an earlier notice.
pub proof fn a_notice_is_refused_in_order(
    registry: &mut TlaRegistry,
    env: Env,
    tla_id: AccountId,
    name: String,
    r: Result<Reply<Dispatch>, ContractError>,
)
    requires
        call_ensures(TlaRegistry::schedule_retraction, (registry, &env, tla_id, name), r),
    ensures
        ({
            let reg = *old(registry);
            let key = crate::account::named_account_of(tla_id, name@);
            let tla = reg.tlas@[tla_id];
            if env.deposit != 1 {
                r is Err && r->Err_0 is RequiresOneYocto
            } else if reg.paused_at(env.now) {
                r is Err && r->Err_0 is Paused
            } else if crate::types::name_refusal(name@) is Some {
                r is Err && Some(r->Err_0) == crate::types::name_refusal(name@)
            } else if !reg.tlas@.has(tla_id) {
                r is Err && r->Err_0 is TlaNotFound
            } else if !(tla.tla_type is Business) {
                r is Err && r->Err_0 is NotBusinessTla
            } else if tla.licensee != Some(env.predecessor) {
                r is Err && r->Err_0 is OnlyLicensee
            } else if key is None || !reg.sub_accounts@.has(key->0) {
                r is Err && r->Err_0 is SubAccountNotFound
            } else if reg.sub_accounts@[key->0].retraction_at is Some {
                r is Err && r->Err_0 is RetractionAlreadyScheduled
            } else {
                r is Ok
            }
        }),
{
}

/// The end of a notice asks in this order: the yocto, the pause, the label, the account, the name, the licensee, the notice and its time.
pub proof fn the_end_of_a_notice_is_refused_in_order(
    registry: &mut TlaRegistry,
    env: Env,
    tla_id: AccountId,
    name: String,
    r: Result<Reply<Dispatch>, ContractError>,
)
    requires
        call_ensures(TlaRegistry::cancel_retraction, (registry, &env, tla_id, name), r),
    ensures
        ({
            let reg = *old(registry);
            let key = crate::account::named_account_of(tla_id, name@);
            let sub = reg.sub_accounts@[key->0];
            if env.deposit != 1 {
                r is Err && r->Err_0 is RequiresOneYocto
            } else if reg.paused_at(env.now) {
                r is Err && r->Err_0 is Paused
            } else if crate::types::name_refusal(name@) is Some {
                r is Err && Some(r->Err_0) == crate::types::name_refusal(name@)
            } else if !reg.tlas@.has(tla_id) {
                r is Err && r->Err_0 is TlaNotFound
            } else if key is None || !reg.sub_accounts@.has(key->0) {
                r is Err && r->Err_0 is SubAccountNotFound
            } else if reg.tlas@[tla_id].licensee != Some(env.predecessor) {
                r is Err && r->Err_0 is OnlyLicensee
            } else if sub.retraction_at is None {
                r is Err && r->Err_0 is NoRetractionScheduled
            } else if env.now >= capped_u64(sub.retraction_at->0 + reg.fee_config.retraction_notice_ns) {
                r is Err && r->Err_0 is RetractionAlreadyElapsed
            } else {
                r is Ok
            }
        }),
{
}

/// A cap asks for the council first, then for the account and its kind.
pub proof fn a_cap_is_refused_in_order(
    registry: &mut TlaRegistry,
    env: Env,
    tla_id: AccountId,
    cap: Option<u32>,
    r: Result<Reply<()>, ContractError>,
)
    requires
        call_ensures(TlaRegistry::set_business_sub_cap, (registry, &env, tla_id, cap), r),
    ensures
        ({
            let reg = *old(registry);
            if env.deposit != 1 {
                r is Err && r->Err_0 is RequiresOneYocto
            } else if env.predecessor != reg.council {
                r is Err && r->Err_0 is OnlyCouncil
            } else if !reg.tlas@.has(tla_id) {
                r is Err && r->Err_0 is TlaNotFound
            } else if !(reg.tlas@[tla_id].tla_type is Business) {
                r is Err && r->Err_0 is NotBusinessTla
            } else {
                r is Ok
            }
        }),
{
}

/// An allowance asks for the council first, then for the authority, the account and the number.
pub proof fn an_allowance_is_refused_in_order(
    registry: &mut TlaRegistry,
    env: Env,
    account_id: AccountId,
    tla_id: AccountId,
    max_mints: u64,
    r: Result<Reply<()>, ContractError>,
)
    requires
        call_ensures(TlaRegistry::bind_payment_authority_tla, (registry, &env, account_id, tla_id, max_mints), r),
    ensures
        ({
            let reg = *old(registry);
            if env.deposit != 1 {
                r is Err && r->Err_0 is RequiresOneYocto
            } else if env.predecessor != reg.council {
                r is Err && r->Err_0 is OnlyCouncil
            } else if !reg.payment_authorities@.has(account_id) {
                r is Err && r->Err_0 is OnlyPaymentAuthority
            } else if !reg.tlas@.has(tla_id) {
                r is Err && r->Err_0 is TlaNotFound
            } else if max_mints == 0 {
                r is Err && r->Err_0 is AuthorityMintAllowanceZero
            } else {
                r is Ok
            }
        }),
{
}

/// A seal asks for the council first, then for a proven upgrade.
pub proof fn a_seal_is_refused_in_order(
    registry: &mut TlaRegistry,
    env: Env,
    public_key: String,
    r: Result<Reply<Dispatch>, ContractError>,
)
    requires
        call_ensures(TlaRegistry::seal, (registry, &env, public_key), r),
    ensures
        ({
            let reg = *old(registry);
            if env.deposit != 1 {
                r is Err && r->Err_0 is RequiresOneYocto
            } else if env.predecessor != reg.council {
                r is Err && r->Err_0 is OnlyCouncil
            } else if !reg.upgrade_proven {
                r is Err && r->Err_0 is UpgradeNotProven
            } else {
                r is Ok
            }
        }),
{
}

/// A lease term asks for the council first, then for its length.
pub proof fn a_lease_term_is_refused_in_order(
    registry: &mut TlaRegistry,
    env: Env,
    lease_term_ns: u64,
    r: Result<Reply<()>, ContractError>,
)
    requires
        call_ensures(TlaRegistry::set_lease_term_ns, (registry, &env, lease_term_ns), r),
    ensures
        ({
            let reg = *old(registry);
            if env.deposit != 1 {
                r is Err && r->Err_0 is RequiresOneYocto
            } else if env.predecessor != reg.council {
                r is Err && r->Err_0 is OnlyCouncil
            } else if lease_term_ns < 60_000_000_000 {
                r is Err && r->Err_0 is LeaseTermTooShort
            } else if lease_term_ns > 315_360_000_000_000_000 {
                r is Err && r->Err_0 is LeaseTermTooLong
            } else {
                r is Ok
            }
        }),
{
}

/// A new admin asks for the council first, then for room.
pub proof fn a_new_admin_is_refused_in_order(
    registry: &mut TlaRegistry,
    env: Env,
    account_id: AccountId,
    r: Result<Reply<()>, ContractError>,
)
    requires
        call_ensures(TlaRegistry::add_admin, (registry, &env, account_id), r),
    ensures
        ({
            let reg = *old(registry);
            if env.deposit != 1 {
                r is Err && r->Err_0 is RequiresOneYocto
            } else if env.predecessor != reg.council {
                r is Err && r->Err_0 is OnlyCouncil
            } else if reg.admins@.len() >= crate::admin::MAX_AUTHORITY_SET {
                r is Err && r->Err_0 is AuthoritySetFull
            } else {
                r is Ok
            }
        }),
{
}

/// The last admin stays, whoever is named.
pub proof fn the_last_admin_stays(
    registry: &mut TlaRegistry,
    env: Env,
    account_id: AccountId,
    r: Result<Reply<()>, ContractError>,
)
    requires
        call_ensures(TlaRegistry::remove_admin, (registry, &env, account_id), r),
    ensures
        ({
            let reg = *old(registry);
            if env.deposit != 1 {
                r is Err && r->Err_0 is RequiresOneYocto
            } else if env.predecessor != reg.council {
                r is Err && r->Err_0 is OnlyCouncil
            } else if reg.admins@.len() <= 1 {
                r is Err && r->Err_0 is CannotRemoveLastAdmin
            } else {
                r is Ok
            }
        }),
{
}

/// A park by hand asks for an admin first, then for the label, the account and a free name.
pub proof fn a_forced_park_is_refused_in_order(
    registry: &mut TlaRegistry,
    env: Env,
    tla_id: AccountId,
    name: String,
    r: Result<Reply<()>, ContractError>,
)
    requires
        call_ensures(TlaRegistry::admin_force_park, (registry, &env, tla_id, name), r),
    ensures
        ({
            let reg = *old(registry);
            if env.deposit != 1 {
                r is Err && r->Err_0 is RequiresOneYocto
            } else if !reg.admins@.has(env.predecessor) {
                r is Err && r->Err_0 is OnlyAdmin
            } else if crate::types::name_refusal(name@) is Some {
                r is Err && Some(r->Err_0) == crate::types::name_refusal(name@)
            } else if !reg.tlas@.has(tla_id) {
                r is Err && r->Err_0 is TlaNotFound
            } else if reg.rented(tla_id, name@) || reg.parked(tla_id, name@) {
                r is Err && r->Err_0 is SubAccountNameTaken
            } else {
                r is Ok
            }
        }),
{
}

/// A release by hand asks for an admin first, then that the name is not rented, then that it is parked.
pub proof fn a_released_park_is_refused_in_order(
    registry: &mut TlaRegistry,
    env: Env,
    tla_id: AccountId,
    name: String,
    r: Result<Reply<()>, ContractError>,
)
    requires
        call_ensures(TlaRegistry::admin_release_park, (registry, &env, tla_id, name), r),
    ensures
        ({
            let reg = *old(registry);
            if env.deposit != 1 {
                r is Err && r->Err_0 is RequiresOneYocto
            } else if !reg.admins@.has(env.predecessor) {
                r is Err && r->Err_0 is OnlyAdmin
            } else if reg.rented(tla_id, name@) {
                r is Err && r->Err_0 is SubAccountNameTaken
            } else if !reg.parked(tla_id, name@) {
                r is Err && r->Err_0 is SubAccountNotParked
            } else {
                r is Ok
            }
        }),
{
}

/// New fees ask for the council first, then for tiers, deposit, order of the tiers, the shares, the band, the present rate, the times, the cap, the notice and the caps of the prices.
pub proof fn fees_are_refused_in_order(
    registry: &mut TlaRegistry,
    env: Env,
    c: FeeConfig,
    r: Result<Reply<()>, ContractError>,
)
    requires
        call_ensures(TlaRegistry::update_fee_config, (registry, &env, c), r),
    ensures
        ({
            let reg = *old(registry);
            let top: u128 = 100_000_000_000_000;
            if env.deposit != 1 {
                r is Err && r->Err_0 is RequiresOneYocto
            } else if env.predecessor != reg.council {
                r is Err && r->Err_0 is OnlyCouncil
            } else if c.rent_tier_5_usd_micro == 0 && c.rent_tier_8_usd_micro == 0 && c.rent_tier_10_usd_micro == 0
                && c.rent_tier_12plus_usd_micro == 0 {
                r is Err && r->Err_0 is AllRentTiersZero
            } else if c.account_creation_deposit_yocto == 0 {
                r is Err && r->Err_0 is CreationDepositZero
            } else if c.rent_tier_5_usd_micro < c.rent_tier_8_usd_micro || c.rent_tier_8_usd_micro < c.rent_tier_10_usd_micro
                || c.rent_tier_10_usd_micro < c.rent_tier_12plus_usd_micro {
                r is Err && r->Err_0 is RentTiersNotDescending
            } else if c.max_rate_move_bps > 10_000 || c.quote_slippage_bps > 10_000 {
                r is Err && r->Err_0 is InvalidRateBounds
            } else if c.min_near_usd_rate_micro == 0 || c.min_near_usd_rate_micro > c.max_near_usd_rate_micro
                || c.max_near_usd_rate_micro > 1_000_000_000_000 {
                r is Err && r->Err_0 is InvalidRateBounds
            } else if reg.near_usd_rate_micro != 0 && (reg.near_usd_rate_micro < c.min_near_usd_rate_micro || reg.near_usd_rate_micro
                > c.max_near_usd_rate_micro) {
                r is Err && r->Err_0 is RateOutOfBounds
            } else if c.rate_update_cooldown_ns == 0 || c.max_rate_age_ns < c.rate_update_cooldown_ns {
                r is Err && r->Err_0 is InvalidRateBounds
            } else if c.business_max_subs == 0 {
                r is Err && r->Err_0 is InvalidBusinessCap
            } else if c.retraction_notice_ns < crate::admin::MIN_RETRACTION_NOTICE_NS {
                r is Err && r->Err_0 is RetractionNoticeTooShort
            } else if c.tla_allocation_fee_usd_micro > top || c.rent_tier_5_usd_micro > top || c.rent_tier_8_usd_micro > top
                || c.rent_tier_10_usd_micro > top || c.rent_tier_12plus_usd_micro > top
                || c.sub_fee_per_account_usd_micro > top {
                r is Err && r->Err_0 is FeeExceedsCap
            } else {
                r is Ok
            }
        }),
{
}

/// Terms ask for the council first, then for the account, for a business where a fee for names is agreed, and for the caps.
pub proof fn terms_are_refused_in_order(
    registry: &mut TlaRegistry,
    env: Env,
    tla_id: AccountId,
    terms: TlaTerms,
    r: Result<Reply<()>, ContractError>,
)
    requires
        call_ensures(TlaRegistry::set_tla_terms, (registry, &env, tla_id, terms), r),
    ensures
        ({
            let reg = *old(registry);
            let top: u128 = 100_000_000_000_000;
            if env.deposit != 1 {
                r is Err && r->Err_0 is RequiresOneYocto
            } else if env.predecessor != reg.council {
                r is Err && r->Err_0 is OnlyCouncil
            } else if !reg.tlas@.has(tla_id) {
                r is Err && r->Err_0 is TlaNotFound
            } else if terms.sub_fee_usd_micro is Some && !(reg.tlas@[tla_id].tla_type is Business) {
                r is Err && r->Err_0 is NotBusinessTla
            } else if (terms.allocation_fee_usd_micro is Some && terms.allocation_fee_usd_micro->0 > top) || (terms.tla_rent_usd_micro is Some
                && terms.tla_rent_usd_micro->0 > top) || (terms.sub_fee_usd_micro is Some && terms.sub_fee_usd_micro->0 > top) {
                r is Err && r->Err_0 is FeeExceedsCap
            } else {
                r is Ok
            }
        }),
{
}

/// A token to gate asks for an admin first; one that is gated passes, and any other needs room in both lists.
pub proof fn a_gated_token_is_refused_in_order(
    registry: &mut TlaRegistry,
    env: Env,
    token: AccountId,
    r: Result<Reply<()>, ContractError>,
)
    requires
        call_ensures(TlaRegistry::add_ft_allowlist, (registry, &env, token), r),
    ensures
        ({
            let reg = *old(registry);
            if env.deposit != 1 {
                r is Err && r->Err_0 is RequiresOneYocto
            } else if !reg.admins@.has(env.predecessor) {
                r is Err && r->Err_0 is OnlyAdmin
            } else if reg.ft_allowlist@.has(token) {
                r is Ok
            } else if reg.ft_allowlist@.len() >= crate::admin::MAX_ALLOWLIST_SIZE {
                r is Err && r->Err_0 is AllowlistFull
            } else if !reg.sweepable_tokens@.has(token) && reg.sweepable_tokens@.len() >= crate::admin::MAX_SWEEPABLE_SIZE {
                r is Err && r->Err_0 is AllowlistFull
            } else {
                r is Ok
            }
        }),
{
}

/// A venue asks for the council first, then that it is not the registry, then for room.
pub proof fn a_venue_is_refused_in_order(
    registry: &mut TlaRegistry,
    env: Env,
    account_id: AccountId,
    r: Result<Reply<()>, ContractError>,
)
    requires
        call_ensures(TlaRegistry::add_venue, (registry, &env, account_id), r),
    ensures
        ({
            let reg = *old(registry);
            if env.deposit != 1 {
                r is Err && r->Err_0 is RequiresOneYocto
            } else if env.predecessor != reg.council {
                r is Err && r->Err_0 is OnlyCouncil
            } else if account_id == env.current {
                r is Err && r->Err_0 is VenueIsRegistry
            } else if reg.venues@.len() >= crate::admin::MAX_VENUES {
                r is Err && r->Err_0 is AllowlistFull
            } else {
                r is Ok
            }
        }),
{
}

/// A payment authority asks for the council first, then for room.
pub proof fn a_payment_authority_is_refused_in_order(
    registry: &mut TlaRegistry,
    env: Env,
    account_id: AccountId,
    r: Result<Reply<()>, ContractError>,
)
    requires
        call_ensures(TlaRegistry::add_payment_authority, (registry, &env, account_id), r),
    ensures
        ({
            let reg = *old(registry);
            if env.deposit != 1 {
                r is Err && r->Err_0 is RequiresOneYocto
            } else if env.predecessor != reg.council {
                r is Err && r->Err_0 is OnlyCouncil
            } else if reg.payment_authorities@.len() >= crate::admin::MAX_AUTHORITY_SET {
                r is Err && r->Err_0 is AuthoritySetFull
            } else {
                r is Ok
            }
        }),
{
}

/// A recovery authority asks for the council first, then for room.
pub proof fn a_recovery_authority_is_refused_in_order(
    registry: &mut TlaRegistry,
    env: Env,
    account_id: AccountId,
    r: Result<Reply<()>, ContractError>,
)
    requires
        call_ensures(TlaRegistry::add_recovery_authority, (registry, &env, account_id), r),
    ensures
        ({
            let reg = *old(registry);
            if env.deposit != 1 {
                r is Err && r->Err_0 is RequiresOneYocto
            } else if env.predecessor != reg.council {
                r is Err && r->Err_0 is OnlyCouncil
            } else if reg.recovery_authorities@.len() >= crate::admin::MAX_AUTHORITY_SET {
                r is Err && r->Err_0 is AuthoritySetFull
            } else {
                r is Ok
            }
        }),
{
}

/// A refund asks that something is owed, then that the balance reaches.
pub proof fn a_refund_is_refused_in_order(
    registry: &mut TlaRegistry,
    env: Env,
    r: Result<Reply<Dispatch>, ContractError>,
)
    requires
        call_ensures(TlaRegistry::claim_refund, (registry, &env), r),
    ensures
        ({
            let reg = *old(registry);
            let owed = reg.refund_of(env.predecessor);
            if owed == 0 {
                r is Err && r->Err_0 is NoPendingRefund
            } else if owed > env.spendable() {
                r is Err && r->Err_0 is InsufficientContractBalance
            } else {
                r is Ok
            }
        }),
{
}

/// The first rate asks for the council first, then that there is none, then for the band.
pub proof fn the_first_rate_is_refused_in_order(
    registry: &mut TlaRegistry,
    env: Env,
    rate: u128,
    r: Result<Reply<()>, ContractError>,
)
    requires
        call_ensures(TlaRegistry::admin_set_initial_rate, (registry, &env, rate), r),
    ensures
        ({
            let reg = *old(registry);
            if env.deposit != 1 {
                r is Err && r->Err_0 is RequiresOneYocto
            } else if env.predecessor != reg.council {
                r is Err && r->Err_0 is OnlyCouncil
            } else if reg.near_usd_rate_micro != 0 {
                r is Err && r->Err_0 is RateAlreadyInitialized
            } else if rate < reg.fee_config.min_near_usd_rate_micro || rate > reg.fee_config.max_near_usd_rate_micro {
                r is Err && r->Err_0 is RateOutOfBounds
            } else {
                r is Ok
            }
        }),
{
}

/// A rate asks for the oracle first, then for a first rate, for the time since the last one, and for its bounds.
pub proof fn a_rate_is_refused_in_order(
    registry: &mut TlaRegistry,
    env: Env,
    rate: u128,
    r: Result<Reply<()>, ContractError>,
)
    requires
        call_ensures(TlaRegistry::set_near_usd_rate, (registry, &env, rate), r),
    ensures
        ({
            let reg = *old(registry);
            if env.predecessor != reg.price_oracle {
                r is Err && r->Err_0 is OnlyPriceOracle
            } else if reg.near_usd_rate_micro == 0 {
                r is Err && r->Err_0 is RateNotInitialized
            } else if env.now < capped_u64(reg.rate_updated_at + reg.fee_config.rate_update_cooldown_ns) {
                r is Err && r->Err_0 is RateCooldown
            } else if !crate::pricing::rate_move_allowed(
                reg.near_usd_rate_micro as int,
                rate as int,
                reg.fee_config.max_rate_move_bps as int,
                reg.fee_config.min_near_usd_rate_micro as int,
                reg.fee_config.max_near_usd_rate_micro as int,
            ) {
                r is Err && r->Err_0 is RateOutOfBounds
            } else {
                r is Ok
            }
        }),
{
}

/// That the council stays is asked of the council first, then of an heir.
pub proof fn a_council_stays_in_order(
    registry: &mut TlaRegistry,
    env: Env,
    r: Result<Reply<()>, ContractError>,
)
    requires
        call_ensures(TlaRegistry::cancel_council_rotation, (registry, &env), r),
    ensures
        ({
            let reg = *old(registry);
            if env.deposit != 1 {
                r is Err && r->Err_0 is RequiresOneYocto
            } else if env.predecessor != reg.council {
                r is Err && r->Err_0 is OnlyCouncil
            } else if reg.pending_council is None {
                r is Err && r->Err_0 is NoCouncilRotationPending
            } else {
                r is Ok
            }
        }),
{
}

/// That the treasury stays is asked of the council first, then of an heir.
pub proof fn a_treasury_stays_in_order(
    registry: &mut TlaRegistry,
    env: Env,
    r: Result<Reply<()>, ContractError>,
)
    requires
        call_ensures(TlaRegistry::cancel_treasury_rotation, (registry, &env), r),
    ensures
        ({
            let reg = *old(registry);
            if env.deposit != 1 {
                r is Err && r->Err_0 is RequiresOneYocto
            } else if env.predecessor != reg.council {
                r is Err && r->Err_0 is OnlyCouncil
            } else if reg.pending_treasury is None {
                r is Err && r->Err_0 is NoTreasuryRotationPending
            } else {
                r is Ok
            }
        }),
{
}

/// A token asks that no approval is named, then for the token, and then as a transfer of its name does.
pub proof fn a_token_is_refused_in_order(
    registry: &mut TlaRegistry,
    env: Env,
    receiver_id: AccountId,
    token_id: String,
    approval_id: Option<u64>,
    memo: Option<String>,
    r: Result<Reply<Dispatch>, ContractError>,
)
    requires
        call_ensures(TlaRegistry::nft_transfer, (registry, &env, receiver_id, token_id, approval_id, memo), r),
    ensures
        ({
            let reg = *old(registry);
            let parts = reg.token_parts(token_id@);
            let (tla_id, label) = parts->0;
            let key = crate::account::named_account_of(tla_id, label);
            let sub = reg.sub_accounts@[key->0];
            let new_owner = receiver_id;
            if approval_id is Some {
                r is Err && r->Err_0 is ApprovalsNotSupported
            } else if parts is None {
                r is Err && r->Err_0 is TokenNotFound
            } else if env.deposit != 1 {
                r is Err && r->Err_0 is RequiresOneYocto
            } else if crate::types::name_refusal(label) is Some {
                r is Err && Some(r->Err_0) == crate::types::name_refusal(label)
            } else if key is Some && reg.reclaim_pending@.has(key->0) {
                r is Err && r->Err_0 is ReclaimInProgress
            } else if key is None || !reg.sub_accounts@.has(key->0) {
                r is Err && r->Err_0 is SubAccountNotFound
            } else if sub.tla_id != tla_id {
                r is Err && r->Err_0 is SubAccountTlaMismatch
            } else if env.predecessor != sub.owner {
                r is Err && r->Err_0 is OnlyOwner
            } else if new_owner == sub.owner {
                r is Err && r->Err_0 is SameOwner
            } else if new_owner == key->0 {
                r is Err && r->Err_0 is TransferToSubAccount
            } else if reg.venues@.has(sub.owner) {
                r is Ok
            } else if reg.paused_at(env.now) {
                r is Err && r->Err_0 is Paused
            } else if sub.retraction_at is Some {
                r is Err && r->Err_0 is RetractionPending
            } else if !reg.tlas@.has(tla_id) {
                r is Err && r->Err_0 is TlaNotFound
            } else if reg.tlas@[tla_id].tla_type is Business {
                r is Err && r->Err_0 is BusinessSubNotResellable
            } else if !(reg.name_lifecycle(env.now, tla_id, key->0) is Active) {
                r is Err && r->Err_0 is SubAccountNotSellable
            } else if !reg.venues@.has(new_owner) && reg.sub_accounts@.has(new_owner) {
                r is Err && r->Err_0 is TransferToRegisteredName
            } else {
                r is Ok
            }
        }),
{
}

/// A token with a message asks for an open marketplace first, and then as any token does.
pub proof fn a_token_with_a_message_is_refused_in_order(
    registry: &mut TlaRegistry,
    env: Env,
    receiver_id: AccountId,
    token_id: String,
    approval_id: Option<u64>,
    memo: Option<String>,
    msg: String,
    r: Result<Reply<Dispatch>, ContractError>,
)
    requires
        call_ensures(TlaRegistry::nft_transfer_call, (registry, &env, receiver_id, token_id, approval_id, memo, msg), r),
    ensures
        ({
            let reg = *old(registry);
            let parts = reg.token_parts(token_id@);
            let (tla_id, label) = parts->0;
            let key = crate::account::named_account_of(tla_id, label);
            let sub = reg.sub_accounts@[key->0];
            let new_owner = receiver_id;
            if reg.marketplace_paused {
                r is Err && r->Err_0 is MarketplacePaused
            } else if approval_id is Some {
                r is Err && r->Err_0 is ApprovalsNotSupported
            } else if parts is None {
                r is Err && r->Err_0 is TokenNotFound
            } else if env.deposit != 1 {
                r is Err && r->Err_0 is RequiresOneYocto
            } else if crate::types::name_refusal(label) is Some {
                r is Err && Some(r->Err_0) == crate::types::name_refusal(label)
            } else if key is Some && reg.reclaim_pending@.has(key->0) {
                r is Err && r->Err_0 is ReclaimInProgress
            } else if key is None || !reg.sub_accounts@.has(key->0) {
                r is Err && r->Err_0 is SubAccountNotFound
            } else if sub.tla_id != tla_id {
                r is Err && r->Err_0 is SubAccountTlaMismatch
            } else if env.predecessor != sub.owner {
                r is Err && r->Err_0 is OnlyOwner
            } else if new_owner == sub.owner {
                r is Err && r->Err_0 is SameOwner
            } else if new_owner == key->0 {
                r is Err && r->Err_0 is TransferToSubAccount
            } else if reg.venues@.has(sub.owner) {
                r is Ok
            } else if reg.paused_at(env.now) {
                r is Err && r->Err_0 is Paused
            } else if sub.retraction_at is Some {
                r is Err && r->Err_0 is RetractionPending
            } else if !reg.tlas@.has(tla_id) {
                r is Err && r->Err_0 is TlaNotFound
            } else if reg.tlas@[tla_id].tla_type is Business {
                r is Err && r->Err_0 is BusinessSubNotResellable
            } else if !(reg.name_lifecycle(env.now, tla_id, key->0) is Active) {
                r is Err && r->Err_0 is SubAccountNotSellable
            } else if !reg.venues@.has(new_owner) && reg.sub_accounts@.has(new_owner) {
                r is Err && r->Err_0 is TransferToRegisteredName
            } else {
                r is Ok
            }
        }),
{
}

/// A registry is set up only after its grace, its lease term, its council and its extension were asked, in this order.
pub proof fn a_registry_is_refused_in_order(
    env: Env,
    admin: AccountId,
    extension: AccountId,
    grace: u64,
    treasury: AccountId,
    council: AccountId,
    term: Option<u64>,
    r: Result<TlaRegistry, InitError>,
)
    requires
        call_ensures(TlaRegistry::new, (&env, admin, extension, grace, treasury, council, term), r),
    ensures
        if grace < 60_000_000_000 {
            r is Err && r->Err_0 is GracePeriodTooShort
        } else if term is Some && term->0 < 60_000_000_000 {
            r is Err && r->Err_0 is LeaseTermTooShort
        } else if term is Some && term->0 > 315_360_000_000_000_000 {
            r is Err && r->Err_0 is LeaseTermTooLong
        } else if council == env.current {
            r is Err && r->Err_0 is CouncilIsRegistry
        } else if extension == env.current {
            r is Err && r->Err_0 is WiringPointsAtRegistry
        } else {
            r is Ok
        },
{
}

} // verus!
