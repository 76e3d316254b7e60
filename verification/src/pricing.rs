//! Dollar prices in NEAR, and how far the rate between them may move.
use vstd::prelude::*;

verus! {

pub const YOCTO_PER_NEAR: u128 = 1_000_000_000_000_000_000_000_000;
pub const USD_MICRO_PER_DOLLAR: u128 = 1_000_000;
pub const MAX_USD_MICRO: u128 = 100_000_000_000_000;
pub const MAX_NEAR_USD_RATE_MICRO: u128 = 1_000_000_000_000;
pub const BPS_DENOMINATOR: u128 = 10_000;

/// `a / b` rounded up.
pub open spec fn div_up(a: int, b: int) -> int
    recommends
        b > 0,
{
    (a + b - 1) / b
}

/// The yocto price of an amount of micro dollars at a rate in micro dollars per NEAR, rounded down.
pub open spec fn near_price(usd_micro: int, rate: int) -> int {
    usd_micro * YOCTO_PER_NEAR / rate
}

/// An amount with its slippage allowance, the allowance rounded up.
pub open spec fn with_slippage(amount: int, bps: int) -> int {
    amount + div_up(amount * bps, BPS_DENOMINATOR as int)
}

pub open spec fn lowest_rate(current: int, move_bps: int) -> int {
    div_up(current * (BPS_DENOMINATOR - move_bps), BPS_DENOMINATOR as int)
}

pub open spec fn highest_rate(current: int, move_bps: int) -> int {
    current * (BPS_DENOMINATOR + move_bps) / (BPS_DENOMINATOR as int)
}

pub open spec fn in_band(rate: int, floor: int, ceiling: int) -> bool {
    floor <= rate <= ceiling
}

/// Whether the rate may move from `current` to `new`: the new rate lies in the band, and unless the
/// current one is unset or outside the band, it moves by at most `move_bps`.
pub open spec fn rate_move_allowed(current: int, new: int, move_bps: int, floor: int, ceiling: int) -> bool {
    &&& move_bps <= BPS_DENOMINATOR
    &&& in_band(new, floor, ceiling)
    &&& (current == 0 || !in_band(current, floor, ceiling) || lowest_rate(current, move_bps) <= new
        <= highest_rate(current, move_bps))
}

pub fn usd_micro_to_near_yocto(usd_micro: u128, near_usd_rate_micro: u128) -> (r: u128)
    requires
        near_usd_rate_micro > 0,
        usd_micro <= MAX_USD_MICRO,
    ensures
        r == near_price(usd_micro as int, near_usd_rate_micro as int),
{
    assert(usd_micro * YOCTO_PER_NEAR <= 100_000_000_000_000_000_000_000_000_000_000_000_000);
    usd_micro * YOCTO_PER_NEAR / near_usd_rate_micro
}

pub fn quote_with_slippage(amount_yocto: u128, slippage_bps: u16) -> (r: u128)
    requires
        slippage_bps <= BPS_DENOMINATOR,
        with_slippage(amount_yocto as int, slippage_bps as int) <= u128::MAX,
    ensures
        r == with_slippage(amount_yocto as int, slippage_bps as int),
{
    let bps: u128 = slippage_bps as u128;
    let quotient: u128 = amount_yocto / BPS_DENOMINATOR;
    let remainder: u128 = amount_yocto % BPS_DENOMINATOR;
    proof {
        let a = amount_yocto as int;
        let b = bps as int;
        let q = quotient as int;
        let m = remainder as int;
        assert(a == q * 10_000 + m);
        assert(a * b == q * b * 10_000 + m * b) by (nonlinear_arith)
            requires
                a == q * 10_000 + m,
        ;
        assert(0 <= m * b <= 100_000_000) by (nonlinear_arith)
            requires
                0 <= m < 10_000,
                0 <= b <= 10_000,
        ;
        assert(0 <= q * b) by (nonlinear_arith)
            requires
                0 <= q,
                0 <= b,
        ;
        let w = q * b;
        let p = m * b;
        assert((w * 10_000 + p + 9_999) / 10_000 == w + (p + 9_999) / 10_000);
    }
    let whole: u128 = quotient * bps;
    let partial_numerator: u128 = remainder * bps;
    let round: u128 = if partial_numerator % BPS_DENOMINATOR == 0 {
        0
    } else {
        1
    };
    let partial: u128 = partial_numerator / BPS_DENOMINATOR + round;
    let buffer: u128 = whole + partial;
    amount_yocto + buffer
}

pub fn rate_lower_bound(current: u128, move_bps: u16) -> (r: u128)
    requires
        move_bps <= BPS_DENOMINATOR,
        current * (BPS_DENOMINATOR - move_bps) <= u128::MAX,
    ensures
        r == lowest_rate(current as int, move_bps as int),
{
    let kept: u128 = BPS_DENOMINATOR - move_bps as u128;
    assert(0 <= current * kept) by (nonlinear_arith);
    let numerator: u128 = current * kept;
    let round: u128 = if numerator % BPS_DENOMINATOR == 0 {
        0
    } else {
        1
    };
    numerator / BPS_DENOMINATOR + round
}

pub fn rate_upper_bound(current: u128, move_bps: u16) -> (r: u128)
    requires
        current * (BPS_DENOMINATOR + move_bps) <= u128::MAX,
    ensures
        r == highest_rate(current as int, move_bps as int),
{
    let grown: u128 = BPS_DENOMINATOR + move_bps as u128;
    assert(0 <= current * grown) by (nonlinear_arith);
    current * grown / BPS_DENOMINATOR
}

/// Whether a rate lies in the band in which prices may be computed from it.
pub fn rate_is_usable(rate: u128, floor: u128, ceiling: u128) -> (r: bool)
    ensures
        r == in_band(rate as int, floor as int, ceiling as int),
{
    floor <= rate && rate <= ceiling
}

pub fn rate_within_bounds(current: u128, new: u128, move_bps: u16, floor: u128, ceiling: u128) -> (r: bool)
    requires
        (move_bps <= BPS_DENOMINATOR && in_band(new as int, floor as int, ceiling as int) && in_band(
            current as int,
            floor as int,
            ceiling as int,
        )) ==> current * (BPS_DENOMINATOR + move_bps) <= u128::MAX,
    ensures
        r == rate_move_allowed(current as int, new as int, move_bps as int, floor as int, ceiling as int),
{
    if move_bps as u128 > BPS_DENOMINATOR {
        return false;
    }
    if !rate_is_usable(new, floor, ceiling) {
        return false;
    }
    if current == 0 || !rate_is_usable(current, floor, ceiling) {
        return true;
    }
    assert(current * (BPS_DENOMINATOR - move_bps) <= current * (BPS_DENOMINATOR + move_bps)) by (nonlinear_arith)
        requires
            move_bps <= BPS_DENOMINATOR,
    ;
    new >= rate_lower_bound(current, move_bps) && new <= rate_upper_bound(current, move_bps)
}

/// A quote is never below the price that it quotes.
pub proof fn quote_covers_the_price(amount: int, bps: int)
    requires
        amount >= 0,
        bps >= 0,
    ensures
        with_slippage(amount, bps) >= amount,
{
    assert(amount * bps >= 0) by (nonlinear_arith)
        requires
            amount >= 0,
            bps >= 0,
    ;
}

/// The dearer NEAR is, the less of it a dollar price takes.
pub proof fn price_falls_as_the_rate_rises(usd_micro: int, low: int, high: int)
    requires
        usd_micro >= 0,
        0 < low <= high,
    ensures
        near_price(usd_micro, high) <= near_price(usd_micro, low),
{
    assert(usd_micro * YOCTO_PER_NEAR >= 0);
    vstd::arithmetic::div_mod::lemma_div_is_ordered_by_denominator(usd_micro * YOCTO_PER_NEAR, low, high);
}

/// The price is exact up to less than one micro dollar's worth: it is the largest amount whose value
/// at the rate does not exceed the dollar price.
pub proof fn price_is_the_floor(usd_micro: int, rate: int)
    requires
        usd_micro >= 0,
        rate > 0,
    ensures
        near_price(usd_micro, rate) * rate <= usd_micro * YOCTO_PER_NEAR,
        usd_micro * YOCTO_PER_NEAR < (near_price(usd_micro, rate) + 1) * rate,
{
    let n = usd_micro * YOCTO_PER_NEAR;
    let q = near_price(usd_micro, rate);
    vstd::arithmetic::div_mod::lemma_fundamental_div_mod(n, rate);
    assert(q * rate == rate * q) by (nonlinear_arith);
    assert((q + 1) * rate == rate * q + rate) by (nonlinear_arith);
}

/// An accepted rate lies in the band, and an accepted move from a rate in the band keeps within the
/// percentage on both sides, whatever rounding does.
pub proof fn accepted_move_is_bounded(current: int, new: int, move_bps: int, floor: int, ceiling: int)
    requires
        current >= 0,
        0 <= move_bps,
        rate_move_allowed(current, new, move_bps, floor, ceiling),
    ensures
        in_band(new, floor, ceiling),
        current != 0 && in_band(current, floor, ceiling) ==> {
            &&& new * BPS_DENOMINATOR >= current * (BPS_DENOMINATOR - move_bps)
            &&& new * BPS_DENOMINATOR <= current * (BPS_DENOMINATOR + move_bps)
        },
{
    let lo = current * (BPS_DENOMINATOR - move_bps);
    let hi = current * (BPS_DENOMINATOR + move_bps);
    assert(lo + 9_999 - 10_000 * ((lo + 9_999) / 10_000) <= 9_999);
    assert(10_000 * (hi / 10_000) <= hi);
}

/// A rate that ended up outside the band never blocks the way back into it.
pub proof fn stranded_rate_can_recover(current: int, new: int, move_bps: int, floor: int, ceiling: int)
    requires
        0 <= move_bps <= BPS_DENOMINATOR,
        !in_band(current, floor, ceiling),
        in_band(new, floor, ceiling),
    ensures
        rate_move_allowed(current, new, move_bps, floor, ceiling),
{
}

} // verus!
