//! What things cost.
use vstd::prelude::*;

use crate::account::AccountId;
use crate::common::capped_u128;
use crate::error::ContractError;
use crate::fees::{base_rent, calculate_rent, default_fee_config, sub_account_rent};
use crate::host::Env;
use crate::pricing::{
    quote_with_slippage, rate_is_usable, rate_lower_bound, rate_upper_bound, rate_within_bounds, usd_micro_to_near_yocto,
};
use crate::registry::TlaRegistry;
use crate::types::{
    BusinessRenewalCostView, FeeConfig, PremiumCategory, RentPriceView, TlaEntry, TlaTerms, TlaView,
};

verus! {

/// The tier of a length: up to five characters, up to eight, up to ten, and beyond.
pub proof fn a_length_has_its_tier(label_len: u8, config: FeeConfig, r: u128)
    requires
        call_ensures(base_rent, (label_len, &config), r),
    ensures
        label_len <= 5 ==> r == config.rent_tier_5_usd_micro,
        5 < label_len <= 8 ==> r == config.rent_tier_8_usd_micro,
        8 < label_len <= 10 ==> r == config.rent_tier_10_usd_micro,
        10 < label_len ==> r == config.rent_tier_12plus_usd_micro,
        r == crate::fees::tier_rent(label_len as int, config),
{
}

/// A premium multiplies the tier: by five, by three, by one and a half, and by nothing.
pub proof fn a_premium_multiplies_the_tier(label_len: u8, premium: PremiumCategory, config: FeeConfig, tier: u128, r: u128)
    requires
        call_ensures(base_rent, (label_len, &config), tier),
        call_ensures(sub_account_rent, (label_len, &premium, &config), r),
    ensures
        premium is Legendary ==> r == capped_u128(tier * 5),
        premium is Premium ==> r == capped_u128(tier * 3),
        premium is Standard ==> r as int == capped_u128(tier * 3) as int / 2,
        premium is Community ==> r == 0,
{
}

/// Under an open account a name costs the tier of its own length, times five where the account is
/// legendary, times three where it is premium, one and a half times where it is standard, and nothing
/// where it belongs to the community.
pub proof fn an_open_name_costs_its_tier_by_its_premium(
    tla: TlaEntry,
    tla_id: AccountId,
    name: &str,
    config: FeeConfig,
    terms: TlaTerms,
    r: u128,
)
    requires
        call_ensures(calculate_rent, (&tla, &tla_id, name, &config, &terms), r),
        tla.tla_type is Open,
    ensures
        ({
            let len = crate::types::byte_len(name@);
            let tier: int = if len <= 5 || len > 255 {
                config.rent_tier_5_usd_micro as int
            } else if len <= 8 {
                config.rent_tier_8_usd_micro as int
            } else if len <= 10 {
                config.rent_tier_10_usd_micro as int
            } else {
                config.rent_tier_12plus_usd_micro as int
            };
            &&& tla.premium_category is Legendary ==> r == capped_u128(5 * tier)
            &&& tla.premium_category is Premium ==> r == capped_u128(3 * tier)
            &&& tla.premium_category is Standard ==> r as int == capped_u128(3 * tier) as int / 2
            &&& tla.premium_category is Community ==> r == 0
        }),
{
}

/// Under equal fees and for the same label a legendary account asks for five times what a length costs,
/// a premium one for three times, twice what a standard one asks for is three times, and a community one
/// asks for nothing, whatever the tiers are.
pub proof fn premiums_keep_their_proportions(
    legendary: TlaEntry,
    premium: TlaEntry,
    standard: TlaEntry,
    community: TlaEntry,
    name: Seq<char>,
    config: FeeConfig,
    terms: TlaTerms,
)
    requires
        legendary.tla_type is Open,
        premium.tla_type is Open,
        standard.tla_type is Open,
        community.tla_type is Open,
        legendary.premium_category is Legendary,
        premium.premium_category is Premium,
        standard.premium_category is Standard,
        community.premium_category is Community,
        config.rent_tier_5_usd_micro <= crate::pricing::MAX_USD_MICRO,
        crate::fees::tiers_descend(config),
    ensures
        ({
            let top = crate::fees::rent_of(legendary, name, config, terms);
            let high = crate::fees::rent_of(premium, name, config, terms);
            let plain = crate::fees::rent_of(standard, name, config, terms);
            &&& 3 * top == 5 * high
            &&& 2 * plain <= high <= 2 * plain + 1
            &&& crate::fees::rent_of(community, name, config, terms) == 0
        }),
{
    let tier = crate::fees::tier_rent(crate::fees::priced_len(name), config) as int;
    assert(legendary.premium_category.factor() == (5u128, 1u128));
    assert(premium.premium_category.factor() == (3u128, 1u128));
    assert(standard.premium_category.factor() == (3u128, 2u128));
    assert(community.premium_category.factor() == (0u128, 1u128));
    assert(tier <= crate::pricing::MAX_USD_MICRO);
    assert(crate::fees::rent_of(legendary, name, config, terms) == 5 * tier);
    assert(crate::fees::rent_of(premium, name, config, terms) == 3 * tier);
    assert(crate::fees::rent_of(standard, name, config, terms) == (3 * tier) / 2);
}

/// Under a business account every name costs the fee that was agreed, or else the scheduled one,
/// whatever its length and the account's premium are.
pub proof fn a_business_name_costs_its_fee(
    tla: TlaEntry,
    tla_id: AccountId,
    name: &str,
    config: FeeConfig,
    terms: TlaTerms,
    r: u128,
)
    requires
        call_ensures(calculate_rent, (&tla, &tla_id, name, &config, &terms), r),
        tla.tla_type is Business,
    ensures
        terms.sub_fee_usd_micro is None ==> r == config.sub_fee_per_account_usd_micro,
        terms.sub_fee_usd_micro is Some ==> Some(r) == terms.sub_fee_usd_micro,
{
}

/// The rent that a registry takes for a name goes by the entry, the fees and the terms that it holds for
/// the name's own account.
pub proof fn the_registry_prices_by_its_own_books(
    registry: TlaRegistry,
    tla_id: AccountId,
    name: &str,
    entry: TlaEntry,
    terms: TlaTerms,
    r: u128,
)
    requires
        call_ensures(calculate_rent, (&entry, &tla_id, name, &registry.fee_config, &terms), r),
        entry == registry.tlas@[tla_id],
        registry.tla_terms@.has(tla_id) ==> terms == registry.tla_terms@[tla_id],
        !registry.tla_terms@.has(tla_id) ==> terms.allocation_fee_usd_micro is None && terms.tla_rent_usd_micro is None
            && terms.sub_fee_usd_micro is None,
    ensures
        registry.rent_usd(tla_id, name@) == r,
        registry.terms_of(tla_id) == terms,
{
}

/// On standard terms a top level account costs the tier of its own name's length a year, and the
/// allocation fee besides to activate; what was agreed takes the place of either.
pub proof fn an_account_costs_the_tier_of_its_own_length(tla_id: AccountId, config: FeeConfig, terms: TlaTerms)
    ensures
        ({
            let rent = crate::rental::tla_rent_of(tla_id, config, terms);
            let len = tla_id@.len();
            &&& terms.tla_rent_usd_micro is Some ==> Some(rent) == terms.tla_rent_usd_micro
            &&& terms.tla_rent_usd_micro is None ==> {
                &&& len <= 5 ==> rent == config.rent_tier_5_usd_micro
                &&& 5 < len <= 8 ==> rent == config.rent_tier_8_usd_micro
                &&& 8 < len <= 10 ==> rent == config.rent_tier_10_usd_micro
                &&& 10 < len ==> rent == config.rent_tier_12plus_usd_micro
            }
            &&& terms.allocation_fee_usd_micro is None ==> crate::rental::activation_price(tla_id, config, terms)
                == capped_u128(config.tla_allocation_fee_usd_micro + rent)
            &&& terms.allocation_fee_usd_micro is Some ==> crate::rental::activation_price(tla_id, config, terms)
                == capped_u128(terms.allocation_fee_usd_micro->0 + rent)
        }),
{
}

/// What an account shows as its yearly rent is what it is charged in dollars on standard terms, and what a
/// renewal quotes is that price with its allowance.
pub proof fn an_account_is_charged_what_it_shows(
    registry: TlaRegistry,
    env: Env,
    tla_id: AccountId,
    shown: Option<TlaView>,
    quoted: Result<BusinessRenewalCostView, ContractError>,
)
    requires
        registry.wf(),
        call_ensures(TlaRegistry::get_tla, (&registry, &env, tla_id), shown),
        call_ensures(TlaRegistry::get_business_renewal_cost, (&registry, &env, tla_id), quoted),
        registry.tlas@.has(tla_id),
        !registry.tla_terms@.has(tla_id),
    ensures
        shown is Some,
        shown->0.annual_rent == crate::rental::tla_rent_of(tla_id, registry.fee_config, registry.terms_of(tla_id)),
        quoted is Ok ==> quoted->Ok_0.tla_rent_yocto == registry.quote_of(shown->0.annual_rent),
        quoted is Ok <==> registry.tlas@[tla_id].tla_type is Business && registry.price_refusal(
            env.now,
            shown->0.annual_rent,
        ) is None,
{
}

/// An account is shown as it stands in the ledger.
pub proof fn an_account_shows_its_entry(registry: TlaRegistry, env: Env, tla_id: AccountId, shown: Option<TlaView>)
    requires
        call_ensures(TlaRegistry::get_tla, (&registry, &env, tla_id), shown),
    ensures
        shown is Some <==> registry.tlas@.has(tla_id),
        shown matches Some(view) ==> {
            let entry = registry.tlas@[tla_id];
            &&& view.tla_id == tla_id
            &&& view.tla_type == entry.tla_type
            &&& view.licensee == entry.licensee
            &&& view.premium_category == entry.premium_category
            &&& view.activated_at == entry.activated_at
            &&& view.expires_at == entry.expires_at
            &&& view.lifecycle == entry.lifecycle_of(
                registry.clock_at(env.now),
                registry.suspension_of(tla_id),
                env.now,
            )
            &&& view.annual_rent == crate::rental::tla_rent_of(
                tla_id,
                registry.fee_config,
                TlaTerms { allocation_fee_usd_micro: None, tla_rent_usd_micro: None, sub_fee_usd_micro: None },
            )
        },
{
}

/// A dollar price is the most yocto whose worth at the stored rate does not exceed it.
pub proof fn a_price_is_worth_its_dollars(registry: TlaRegistry, usd_micro: u128)
    requires
        registry.near_usd_rate_micro > 0,
        usd_micro <= 100_000_000_000_000,
    ensures
        registry.price_of(usd_micro) * registry.near_usd_rate_micro <= usd_micro * 1_000_000_000_000_000_000_000_000,
        usd_micro * 1_000_000_000_000_000_000_000_000 < (registry.price_of(usd_micro) + 1)
            * registry.near_usd_rate_micro,
{
    let rate = registry.near_usd_rate_micro as int;
    let n = usd_micro * crate::pricing::YOCTO_PER_NEAR;
    assert(0 <= n / rate <= n) by (nonlinear_arith)
        requires
            n >= 0,
            rate >= 1,
    ;
    crate::pricing::price_is_the_floor(usd_micro as int, rate);
}

/// A quote lies above the price by the slippage allowance, rounded up to a yocto.
pub proof fn a_quote_adds_the_allowance(registry: TlaRegistry, usd_micro: u128)
    requires
        registry.wf(),
        registry.near_usd_rate_micro > 0,
        usd_micro <= 100_000_000_000_000,
    ensures
        ({
            let price = registry.price_of(usd_micro) as int;
            let allowance = registry.quote_of(usd_micro) - price;
            let share = price * registry.fee_config.quote_slippage_bps;
            share <= allowance * 10_000 < share + 10_000
        }),
{
    let rate = registry.near_usd_rate_micro as int;
    let n = usd_micro * crate::pricing::YOCTO_PER_NEAR;
    assert(0 <= n / rate <= n) by (nonlinear_arith)
        requires
            n >= 0,
            rate >= 1,
    ;
    let price = registry.price_of(usd_micro) as int;
    let bps = registry.fee_config.quote_slippage_bps as int;
    assert(0 <= price * bps <= 1_000_000_000_000_000_000_000_000_000_000_000_000_000_000) by (nonlinear_arith)
        requires
            0 <= price <= 100_000_000_000_000_000_000_000_000_000_000_000_000,
            0 <= bps <= 10_000,
    ;
}

/// A price can be had exactly when there is a rate, it lies in its band, it is not too old, and the amount
/// is within the cap; each refusal says which of these fails.
pub proof fn a_price_needs_a_usable_rate(registry: TlaRegistry, now: u64, usd_micro: u128)
    ensures
        ({
            let rate = registry.near_usd_rate_micro;
            let config = registry.fee_config;
            let aged = now > registry.rate_updated_at && now - registry.rate_updated_at > config.max_rate_age_ns;
            match registry.price_refusal(now, usd_micro) {
                None => rate > 0 && config.min_near_usd_rate_micro <= rate <= config.max_near_usd_rate_micro && !aged
                    && usd_micro <= 100_000_000_000_000,
                Some(e) => {
                    ||| e is RateNotInitialized && rate == 0
                    ||| e is RateOutOfBounds && (rate < config.min_near_usd_rate_micro || rate
                        > config.max_near_usd_rate_micro)
                    ||| e is RateStale && aged
                    ||| e is FeeExceedsCap && usd_micro > 100_000_000_000_000
                },
            }
        }),
{
}

/// A quote for a name shows its rent with the allowance, and what its account takes to create unless the
/// name is parked; it is refused only for the label, for an account that is not known, or for want of a
/// rate.
pub proof fn a_name_is_quoted_at_its_rent(
    registry: TlaRegistry,
    env: Env,
    tla_id: AccountId,
    name: String,
    r: Result<RentPriceView, ContractError>,
)
    requires
        registry.wf(),
        call_ensures(TlaRegistry::get_rent_price, (&registry, &env, tla_id, name), r),
    ensures
        r matches Ok(view) ==> {
            &&& view.rent_yocto == registry.quote_of(registry.rent_usd(tla_id, name@))
            &&& view.creation_deposit_yocto == (if registry.parked_names@.has(
                crate::account::sub_account_text(tla_id, name@),
            ) {
                0
            } else {
                registry.fee_config.account_creation_deposit_yocto
            })
            &&& view.total_yocto == capped_u128(view.rent_yocto + view.creation_deposit_yocto)
        },
        r is Ok <==> crate::types::mint_name_refusal(tla_id, name@) is None && registry.tlas@.has(tla_id)
            && registry.price_refusal(env.now, registry.rent_usd(tla_id, name@)) is None,
        r matches Err(e) ==> {
            ||| crate::types::mint_name_refusal(tla_id, name@) == Some(e)
            ||| e is TlaNotFound && !registry.tlas@.has(tla_id)
            ||| registry.price_refusal(env.now, registry.rent_usd(tla_id, name@)) == Some(e)
        },
{
}

/// The fees at launch, in dollars: a thousand for an allocation; fifty, twenty, ten and five for a year by
/// length; half a dollar for a name under a business account; and a hundredth of a NEAR to create one.
pub proof fn the_launch_fees(r: FeeConfig)
    requires
        call_ensures(default_fee_config, (), r),
    ensures
        r.tla_allocation_fee_usd_micro == 1_000 * 1_000_000,
        r.rent_tier_5_usd_micro == 50 * 1_000_000,
        r.rent_tier_8_usd_micro == 20 * 1_000_000,
        r.rent_tier_10_usd_micro == 10 * 1_000_000,
        r.rent_tier_12plus_usd_micro == 5 * 1_000_000,
        r.sub_fee_per_account_usd_micro == 500_000,
        100 * r.account_creation_deposit_yocto == 1_000_000_000_000_000_000_000_000,
        r.business_max_subs == 1_000,
        r.retraction_notice_ns == 7 * 86_400 * 1_000_000_000,
        r.max_rate_move_bps == 2_000,
        r.quote_slippage_bps == 527,
        r.min_near_usd_rate_micro == 100_000,
        r.max_near_usd_rate_micro == 100 * 1_000_000,
        r.rate_update_cooldown_ns == 300 * 1_000_000_000,
        r.max_rate_age_ns == 6 * 3_600 * 1_000_000_000,
{
}

/// An amount of micro dollars is converted to the most yocto that it is worth at the rate.
pub proof fn dollars_convert_to_what_they_are_worth(usd_micro: u128, rate: u128, r: u128)
    requires
        rate > 0,
        usd_micro <= 100_000_000_000_000,
        call_ensures(usd_micro_to_near_yocto, (usd_micro, rate), r),
    ensures
        r * rate <= usd_micro * 1_000_000_000_000_000_000_000_000,
        usd_micro * 1_000_000_000_000_000_000_000_000 < (r + 1) * rate,
{
    crate::pricing::price_is_the_floor(usd_micro as int, rate as int);
}

/// A quote adds to an amount its share of the allowance, rounded up.
pub proof fn slippage_is_a_share_rounded_up(amount: u128, bps: u16, r: u128)
    requires
        bps <= 10_000,
        crate::pricing::with_slippage(amount as int, bps as int) <= u128::MAX,
        call_ensures(quote_with_slippage, (amount, bps), r),
    ensures
        amount * bps <= (r - amount) * 10_000 < amount * bps + 10_000,
{
    assert(0 <= amount * bps) by (nonlinear_arith);
}

/// The bounds of a move are the share on both sides, rounded towards the rate; a rate is usable within its band; and a move is allowed into
/// the band, from a rate within it by no more than the share, and from an unset or stranded one by any step.
pub proof fn a_move_is_bounded_by_its_share(
    current: u128,
    new: u128,
    bps: u16,
    floor: u128,
    ceiling: u128,
    lo: u128,
    hi: u128,
    usable: bool,
    r: bool,
)
    requires
        bps <= 10_000,
        current * (10_000 + bps) <= u128::MAX,
        current * (10_000 - bps) <= u128::MAX,
        call_ensures(rate_lower_bound, (current, bps), lo),
        call_ensures(rate_upper_bound, (current, bps), hi),
        call_ensures(rate_is_usable, (current, floor, ceiling), usable),
        call_ensures(rate_within_bounds, (current, new, bps, floor, ceiling), r),
    ensures
        current * (10_000 - bps) <= lo * 10_000 < current * (10_000 - bps) + 10_000,
        current * (10_000 + bps) - 10_000 < hi * 10_000 <= current * (10_000 + bps),
        usable <==> floor <= current && current <= ceiling,
        r <==> floor <= new && new <= ceiling && (current == 0 || !usable || lo <= new && new <= hi),
{
    assert(0 <= current * (10_000 - bps)) by (nonlinear_arith)
        requires
            bps <= 10_000,
    ;
    assert(0 <= current * (10_000 + bps)) by (nonlinear_arith);
}

} // verus!
