use tla_registry::account::AccountId;
use tla_registry::common::is_ed25519;
use tla_registry::fees::{base_rent, calculate_rent, default_fee_config};
use tla_registry::pricing::{
    quote_with_slippage, rate_lower_bound, rate_upper_bound, rate_within_bounds,
    usd_micro_to_near_yocto, MAX_NEAR_USD_RATE_MICRO, MAX_USD_MICRO, USD_MICRO_PER_DOLLAR,
    YOCTO_PER_NEAR,
};
use tla_registry::types::{PremiumCategory, TlaEntry, TlaStatus, TlaTerms, TlaType};

fn dollars(d: u128) -> u128 {
    d * USD_MICRO_PER_DOLLAR
}

fn near(n: u128) -> u128 {
    n * YOCTO_PER_NEAR
}

#[test]
fn fifty_dollars_at_five_dollar_near_is_ten_near() {
    assert_eq!(usd_micro_to_near_yocto(dollars(50), dollars(5)), near(10));
}

#[test]
fn cheaper_near_costs_more_near() {
    let at_5 = usd_micro_to_near_yocto(dollars(50), dollars(5));
    let at_2 = usd_micro_to_near_yocto(dollars(50), dollars(2));
    assert!(at_2 > at_5);
    assert_eq!(at_2, near(25));
}

#[test]
fn fractional_dollar_rate_is_exact() {
    assert_eq!(usd_micro_to_near_yocto(dollars(85), 4_250_000), near(20));
}

#[test]
fn truncation_error_is_below_one_yocto_scale() {
    let rate = 3_333_333;
    assert_eq!(
        usd_micro_to_near_yocto(dollars(10), rate),
        dollars(10) * YOCTO_PER_NEAR / rate
    );
}

#[test]
fn slippage_rounds_up_not_down() {
    assert_eq!(quote_with_slippage(near(10), 0), near(10));
    assert_eq!(quote_with_slippage(1_000_000, 500), 1_050_000);
    assert_eq!(quote_with_slippage(9_999, 1), 10_000);
    assert_eq!(quote_with_slippage(1, 1), 2);
}

#[test]
fn slippage_is_overflow_safe_at_extreme_inputs() {
    let amount = MAX_USD_MICRO * YOCTO_PER_NEAR / 10_000;
    let quoted = quote_with_slippage(amount, 2_500);
    assert!(quoted >= amount);
    assert_eq!(quoted, amount + amount.div_ceil(4));
}

fn quote_covers_drop(slippage_bps: u16, drop_bps: u128) -> bool {
    let usd = dollars(50);
    let quoted = quote_with_slippage(usd_micro_to_near_yocto(usd, dollars(5)), slippage_bps);
    let rate_at_pay = dollars(5) * (10_000 - drop_bps) / 10_000;
    quoted >= usd_micro_to_near_yocto(usd, rate_at_pay)
}

#[test]
fn slippage_500bps_covers_up_to_476_bps_drop() {
    assert!(quote_covers_drop(500, 476));
    assert!(!quote_covers_drop(500, 477));
    assert!(!quote_covers_drop(500, 500));
}

#[test]
fn slippage_527bps_covers_a_full_500bps_drop() {
    assert!(quote_covers_drop(527, 500));
}

#[test]
fn slippage_2500bps_covers_a_full_2000bps_drop() {
    assert!(quote_covers_drop(2_500, 2_000));
    assert!(!quote_covers_drop(2_000, 2_000));
}

#[test]
fn lower_bound_rounds_up_to_hold_the_percentage() {
    assert_eq!(rate_lower_bound(3, 2_000), 3);
    assert_eq!(rate_lower_bound(dollars(5), 2_000), 4_000_000);
}

#[test]
fn tiny_rate_cannot_move_beyond_band_via_flooring() {
    let floor = 1;
    let ceiling = MAX_NEAR_USD_RATE_MICRO;
    assert!(!rate_within_bounds(3, 2, 2_000, floor, ceiling));
}

#[test]
fn absolute_floor_and_ceiling_enforced() {
    let floor = dollars(1);
    let ceiling = dollars(50);
    assert!(!rate_within_bounds(0, floor - 1, 2_000, floor, ceiling));
    assert!(!rate_within_bounds(0, ceiling + 1, 2_000, floor, ceiling));
    assert!(rate_within_bounds(0, dollars(5), 2_000, floor, ceiling));
}

#[test]
fn move_within_band_accepted_beyond_band_rejected() {
    let (floor, ceiling) = (1, MAX_NEAR_USD_RATE_MICRO);
    let current = dollars(5);
    assert!(rate_within_bounds(
        current,
        dollars(6),
        2_000,
        floor,
        ceiling
    ));
    assert!(rate_within_bounds(
        current,
        dollars(4),
        2_000,
        floor,
        ceiling
    ));
    assert!(!rate_within_bounds(
        current,
        current * 12_001 / 10_000,
        2_000,
        floor,
        ceiling
    ));
    assert!(!rate_within_bounds(
        current,
        current * 7_999 / 10_000,
        2_000,
        floor,
        ceiling
    ));
}

#[test]
fn out_of_range_move_bps_rejected() {
    let (floor, ceiling) = (1, MAX_NEAR_USD_RATE_MICRO);
    assert!(!rate_within_bounds(
        dollars(5),
        dollars(5),
        10_001,
        floor,
        ceiling
    ));
}

#[test]
fn base_rent_non_increasing_and_boundaries() {
    let config = default_fee_config();
    let mut prev = u128::MAX;
    for len in 0u8..=64 {
        let rent = base_rent(len, &config);
        assert!(
            rent <= prev,
            "base_rent must not increase with name length (len={len})"
        );
        prev = rent;
    }
    assert_eq!(base_rent(0, &config), config.rent_tier_5_usd_micro);
    assert_eq!(base_rent(5, &config), config.rent_tier_5_usd_micro);
    assert_eq!(base_rent(6, &config), config.rent_tier_8_usd_micro);
    assert_eq!(base_rent(8, &config), config.rent_tier_8_usd_micro);
    assert_eq!(base_rent(9, &config), config.rent_tier_10_usd_micro);
    assert_eq!(base_rent(10, &config), config.rent_tier_10_usd_micro);
    assert_eq!(base_rent(11, &config), config.rent_tier_12plus_usd_micro);
    assert_eq!(base_rent(64, &config), config.rent_tier_12plus_usd_micro);
}

#[test]
fn the_same_label_costs_the_same_under_any_namespace() {
    let config = default_fee_config();
    let terms = TlaTerms {
        allocation_fee_usd_micro: None,
        tla_rent_usd_micro: None,
        sub_fee_usd_micro: None,
    };
    let tla = TlaEntry {
        tla_type: TlaType::Open,
        status: TlaStatus::Active,
        licensee: None,
        premium_category: PremiumCategory::Standard,
        activated_at: 0,
        expires_at: u64::MAX,
    };
    let short = AccountId::parse("hos").unwrap();
    let long = AccountId::parse("a-much-longer-namespace").unwrap();
    assert_eq!(
        calculate_rent(&tla, &short, "alice", &config, &terms),
        calculate_rent(&tla, &long, "alice", &config, &terms)
    );
    assert!(
        calculate_rent(&tla, &short, "ab", &config, &terms)
            > calculate_rent(&tla, &short, "abcdefghijk", &config, &terms)
    );
}

#[test]
fn accepts_ed25519() {
    let key: near_sdk::PublicKey = "ed25519:DcA2MzgpJbrUATQLLceocVckhhAqrkingax4oJ9kZ847"
        .parse()
        .unwrap();
    assert!(is_ed25519(key.into_bytes()));
}

#[test]
fn rejects_non_ed25519() {
    let secp: near_sdk::PublicKey = "secp256k1:qMoRgcoXai4mBPsdbHi1wfyxF9TdbPCF4qSDQTRP3TfescSRoUdSx6nmeQoN3aiwGzwMyGXAb1gUjBTv5AY8DXj"
        .parse()
        .unwrap();
    assert!(!is_ed25519(secp.into_bytes()));
    assert!(!is_ed25519(vec![0u8; 5]));
}

#[test]
fn the_upper_bound_rounds_down() {
    assert_eq!(rate_upper_bound(3, 2_000), 3);
    assert_eq!(rate_upper_bound(dollars(5), 2_000), 6_000_000);
}
