//! What a name costs a year, in micro dollars.
use vstd::prelude::*;

use crate::account::AccountId;
use crate::pricing::USD_MICRO_PER_DOLLAR;
use crate::types::{FeeConfig, PremiumCategory, TlaEntry, TlaTerms, TlaType, ONE_NEAR};

verus! {

/// The tier that a label's length falls into.
pub open spec fn tier_rent(label_len: int, config: FeeConfig) -> u128 {
    if label_len <= 5 {
        config.rent_tier_5_usd_micro
    } else if label_len <= 8 {
        config.rent_tier_8_usd_micro
    } else if label_len <= 10 {
        config.rent_tier_10_usd_micro
    } else {
        config.rent_tier_12plus_usd_micro
    }
}

pub fn base_rent(label_len: u8, config: &FeeConfig) -> (r: u128)
    ensures
        r == tier_rent(label_len as int, *config),
{
    if label_len <= 5 {
        config.rent_tier_5_usd_micro
    } else if label_len <= 8 {
        config.rent_tier_8_usd_micro
    } else if label_len <= 10 {
        config.rent_tier_10_usd_micro
    } else {
        config.rent_tier_12plus_usd_micro
    }
}

pub open spec fn premium_rent(label_len: int, premium: PremiumCategory, config: FeeConfig) -> u128 {
    (crate::common::capped_u128(tier_rent(label_len, config) * premium.factor().0) as int
        / premium.factor().1 as int) as u128
}

pub fn sub_account_rent(label_len: u8, premium: &PremiumCategory, config: &FeeConfig) -> (r: u128)
    ensures
        r == premium_rent(label_len as int, *premium, *config),
{
    let base: u128 = base_rent(label_len, config);
    let (num, den) = premium.multiplier();
    let scaled: u128 = match base.checked_mul(num) {
        Some(n) => n,
        None => u128::MAX,
    };
    scaled / den
}

/// The length that a label is priced by: its bytes, or the shortest tier where they do not fit a
/// byte.
pub open spec fn priced_len(name: Seq<char>) -> int {
    if crate::types::byte_len(name) <= 255 {
        crate::types::byte_len(name) as int
    } else {
        0
    }
}

/// The yearly rent of a name: the agreed or scheduled fee under a business account, else by length
/// and premium.
pub open spec fn rent_of(tla: TlaEntry, name: Seq<char>, config: FeeConfig, terms: TlaTerms) -> u128 {
    match tla.tla_type {
        TlaType::Business => match terms.sub_fee_usd_micro {
            Some(fee) => fee,
            None => config.sub_fee_per_account_usd_micro,
        },
        TlaType::Open => premium_rent(priced_len(name), tla.premium_category, config),
    }
}

pub fn calculate_rent(
    tla: &TlaEntry,
    _tla_id: &AccountId,
    name: &str,
    config: &FeeConfig,
    terms: &TlaTerms,
) -> (r: u128)
    ensures
        r == rent_of(*tla, name@, *config, *terms),
{
    match tla.tla_type {
        TlaType::Business => match terms.sub_fee_usd_micro {
            Some(fee) => fee,
            None => config.sub_fee_per_account_usd_micro,
        },
        TlaType::Open => {
            let len: usize = name.as_bytes().len();
            let label_len: u8 = if len <= 255 {
                len as u8
            } else {
                0
            };
            sub_account_rent(label_len, &tla.premium_category, config)
        },
    }
}

pub open spec fn launch_fees() -> FeeConfig {
    FeeConfig {
        tla_allocation_fee_usd_micro: 1_000_000_000,
        rent_tier_5_usd_micro: 50_000_000,
        rent_tier_8_usd_micro: 20_000_000,
        rent_tier_10_usd_micro: 10_000_000,
        rent_tier_12plus_usd_micro: 5_000_000,
        sub_fee_per_account_usd_micro: 500_000,
        account_creation_deposit_yocto: 10_000_000_000_000_000_000_000,
        business_max_subs: 1000,
        retraction_notice_ns: 604_800_000_000_000,
        max_rate_move_bps: 2_000,
        quote_slippage_bps: 527,
        min_near_usd_rate_micro: 100_000,
        max_near_usd_rate_micro: 100_000_000,
        rate_update_cooldown_ns: 300_000_000_000,
        max_rate_age_ns: 21_600_000_000_000,
    }
}

pub fn default_fee_config() -> (r: FeeConfig)
    ensures
        r == launch_fees(),
{
    FeeConfig {
        tla_allocation_fee_usd_micro: 1000 * USD_MICRO_PER_DOLLAR,
        rent_tier_5_usd_micro: 50 * USD_MICRO_PER_DOLLAR,
        rent_tier_8_usd_micro: 20 * USD_MICRO_PER_DOLLAR,
        rent_tier_10_usd_micro: 10 * USD_MICRO_PER_DOLLAR,
        rent_tier_12plus_usd_micro: 5 * USD_MICRO_PER_DOLLAR,
        sub_fee_per_account_usd_micro: USD_MICRO_PER_DOLLAR / 2,
        account_creation_deposit_yocto: ONE_NEAR / 100,
        business_max_subs: 1000,
        retraction_notice_ns: 7 * 24 * 60 * 60 * 1_000_000_000,
        max_rate_move_bps: 2_000,
        quote_slippage_bps: 527,
        min_near_usd_rate_micro: 100_000,
        max_near_usd_rate_micro: 100_000_000,
        rate_update_cooldown_ns: 300 * 1_000_000_000,
        max_rate_age_ns: 6 * 60 * 60 * 1_000_000_000,
    }
}

/// The tiers fall as labels grow.
pub open spec fn tiers_descend(config: FeeConfig) -> bool {
    config.rent_tier_5_usd_micro >= config.rent_tier_8_usd_micro >= config.rent_tier_10_usd_micro
        >= config.rent_tier_12plus_usd_micro
}

/// A longer label never costs more.
pub proof fn rent_never_rises_with_length(shorter: int, longer: int, config: FeeConfig)
    requires
        shorter <= longer,
        tiers_descend(config),
    ensures
        tier_rent(longer, config) <= tier_rent(shorter, config),
{
}

/// A label costs the same under any top level account of the same kind, premium and terms.
pub proof fn rent_ignores_the_namespace(a: TlaEntry, b: TlaEntry, name: Seq<char>, config: FeeConfig, terms: TlaTerms)
    requires
        a.tla_type == b.tla_type,
        a.premium_category == b.premium_category,
    ensures
        rent_of(a, name, config, terms) == rent_of(b, name, config, terms),
{
}

} // verus!
