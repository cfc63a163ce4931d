//! Production rates, costs and time-capped accrual, as functions of a tier.

use vstd::arithmetic::div_mod::{lemma_div_is_ordered, lemma_div_multiples_vanish};
use vstd::arithmetic::mul::lemma_mul_inequality;
use vstd::prelude::*;

verus! {

/// Cookies per hour produced by a tier-1 plugin.
pub const PLUGIN_BASE_PRODUCTION_RATE: u64 = 500;

/// Base cost to create a plugin template.
pub const PLUGIN_CREATION_BASE_COST: u64 = 1000;

/// Base cost to install a plugin.
pub const PLUGIN_INSTALL_BASE_COST: u64 = 10;

/// Base cost to unlock a tier.
pub const PLUGIN_UNLOCK_BASE_COST: u64 = 10;

/// Default share of an install payment that goes to the creator.
pub const CREATOR_SHARE_BPS: u16 = 2000;

/// Default share of an install payment that is burned.
pub const BURN_SHARE_BPS: u16 = 8000;

pub const SECONDS_PER_HOUR: i64 = 3600;

/// A tier that plugins, slots and unlocks may carry.
pub open spec fn valid_tier(tier: int) -> bool {
    1 <= tier <= 10
}

/// Two to the power `e`.
pub open spec fn two_pow(e: nat) -> nat
    decreases e,
{
    if e == 0 {
        1
    } else {
        2 * two_pow((e - 1) as nat)
    }
}

/// Hours of production a slot can stockpile: 1, 2, 4 for tiers 1 to 3, then
/// 6 growing by 3 per tier, never above 24. Any other tier gets one hour.
pub open spec fn max_accumulation_hours(tier: int) -> int {
    if 1 <= tier <= 3 {
        two_pow((tier - 1) as nat) as int
    } else if 4 <= tier <= 10 {
        let h = 6 + 3 * (tier - 4);
        if h < 24 {
            h
        } else {
            24
        }
    } else {
        1
    }
}

/// Powers of two do not decrease as the exponent grows.
pub proof fn lemma_two_pow_monotonic(a: nat, b: nat)
    requires
        a <= b,
    ensures
        two_pow(a) <= two_pow(b),
    decreases b,
{
    if b > a {
        lemma_two_pow_monotonic(a, (b - 1) as nat);
    }
}

pub proof fn lemma_two_pow_positive(e: nat)
    ensures
        two_pow(e) >= 1,
    decreases e,
{
    if e > 0 {
        lemma_two_pow_positive((e - 1) as nat);
    }
}

fn pow_of_two(e: u8) -> (r: u64)
    requires
        e <= 10,
    ensures
        r == two_pow(e as nat),
{
    proof {
        reveal_with_fuel(two_pow, 11);
    }
    let mut r: u64 = 1;
    let mut i: u8 = 0;
    while i < e
        invariant
            i <= e <= 10,
            r == two_pow(i as nat),
            two_pow(10) == 1024,
        decreases e - i,
    {
        proof {
            lemma_two_pow_monotonic(i as nat, 9);
            reveal_with_fuel(two_pow, 10);
        }
        r = r * 2;
        i = i + 1;
    }
    r
}

/// Hours of production a slot of `tier` can stockpile.
pub fn get_max_accumulation_hours(tier: u8) -> (r: i64)
    ensures
        r == max_accumulation_hours(tier as int),
        1 <= r <= 24,
{
    proof {
        reveal_with_fuel(two_pow, 3);
    }
    if 1 <= tier && tier <= 3 {
        pow_of_two(tier - 1) as i64
    } else if 4 <= tier && tier <= 10 {
        let hours: i64 = 6 + (tier as i64 - 4) * 3;
        if hours < 24 {
            hours
        } else {
            24
        }
    } else {
        1
    }
}

pub open spec fn fifth_power(x: int) -> int {
    x * x * x * x * x
}

pub open spec fn ninth_power(x: int) -> int {
    x * x * x * x * x * x * x * x * x
}

/// `r` is the integer part of `PLUGIN_BASE_PRODUCTION_RATE * tier^1.8`:
/// since `1.8 = 9/5`, that is the one `r >= 0` with `r^5 <= 500^5 * tier^9 < (r+1)^5`.
pub open spec fn is_production_rate_floor(tier: int, r: int) -> bool {
    &&& 0 <= r
    &&& fifth_power(r) <= fifth_power(500) * ninth_power(tier)
    &&& fifth_power(500) * ninth_power(tier) < fifth_power(r + 1)
}

/// Cookies per hour produced by a plugin of `tier`, for the tiers 1 to 10.
pub open spec fn production_rate(tier: int) -> int {
    if tier == 1 {
        500
    } else if tier == 2 {
        1741
    } else if tier == 3 {
        3612
    } else if tier == 4 {
        6062
    } else if tier == 5 {
        9059
    } else if tier == 6 {
        12578
    } else if tier == 7 {
        16601
    } else if tier == 8 {
        21112
    } else if tier == 9 {
        26097
    } else {
        31547
    }
}

/// The listed production rates are the integer parts of `500 * tier^1.8`.
pub proof fn lemma_production_rate_floor(tier: int)
    requires
        valid_tier(tier),
    ensures
        is_production_rate_floor(tier, production_rate(tier)),
{
    if tier == 1 {
        assert(is_production_rate_floor(1, 500)) by (nonlinear_arith);
    } else if tier == 2 {
        assert(is_production_rate_floor(2, 1741)) by (nonlinear_arith);
    } else if tier == 3 {
        assert(is_production_rate_floor(3, 3612)) by (nonlinear_arith);
    } else if tier == 4 {
        assert(is_production_rate_floor(4, 6062)) by (nonlinear_arith);
    } else if tier == 5 {
        assert(is_production_rate_floor(5, 9059)) by (nonlinear_arith);
    } else if tier == 6 {
        assert(is_production_rate_floor(6, 12578)) by (nonlinear_arith);
    } else if tier == 7 {
        assert(is_production_rate_floor(7, 16601)) by (nonlinear_arith);
    } else if tier == 8 {
        assert(is_production_rate_floor(8, 21112)) by (nonlinear_arith);
    } else if tier == 9 {
        assert(is_production_rate_floor(9, 26097)) by (nonlinear_arith);
    } else {
        assert(is_production_rate_floor(10, 31547)) by (nonlinear_arith);
    }
}

/// Cookies per hour produced by a plugin of `tier`: `500 * tier^1.8`, truncated.
pub fn calculate_production_rate(tier: u8) -> (r: u64)
    requires
        valid_tier(tier as int),
    ensures
        r == production_rate(tier as int),
        is_production_rate_floor(tier as int, r as int),
        500 <= r <= 31547,
{
    proof {
        lemma_production_rate_floor(tier as int);
    }
    match tier {
        1 => 500,
        2 => 1741,
        3 => 3612,
        4 => 6062,
        5 => 9059,
        6 => 12578,
        7 => 16601,
        8 => 21112,
        9 => 26097,
        _ => 31547,
    }
}

/// Cost to create a plugin template of `tier`: `1000 * tier^2`.
pub open spec fn creation_cost(tier: int) -> int {
    PLUGIN_CREATION_BASE_COST * (tier * tier)
}

/// Cost to create a plugin template of `tier`.
pub fn calculate_creation_cost(tier: u8) -> (r: u64)
    ensures
        r == creation_cost(tier as int),
{
    let t: u64 = tier as u64;
    assert(t * t <= 255 * 255) by (nonlinear_arith)
        requires
            t <= 255,
    ;
    PLUGIN_CREATION_BASE_COST * (t * t)
}

/// `c` is the integer part of `PLUGIN_INSTALL_BASE_COST * tier^1.5`: the one
/// `c >= 0` with `c^2 <= 10^2 * tier^3 < (c+1)^2`.
pub open spec fn is_install_cost_floor(tier: int, c: int) -> bool {
    &&& 0 <= c
    &&& c * c <= 10 * 10 * (tier * tier * tier)
    &&& 10 * 10 * (tier * tier * tier) < (c + 1) * (c + 1)
}

/// Cost to install a plugin of `tier`, for the tiers 1 to 10.
pub open spec fn install_cost(tier: int) -> int {
    if tier == 1 {
        10
    } else if tier == 2 {
        28
    } else if tier == 3 {
        51
    } else if tier == 4 {
        80
    } else if tier == 5 {
        111
    } else if tier == 6 {
        146
    } else if tier == 7 {
        185
    } else if tier == 8 {
        226
    } else if tier == 9 {
        270
    } else {
        316
    }
}

/// The listed install costs are the integer parts of `10 * tier^1.5`.
pub proof fn lemma_install_cost_floor(tier: int)
    requires
        valid_tier(tier),
    ensures
        is_install_cost_floor(tier, install_cost(tier)),
{
    if tier == 1 {
        assert(is_install_cost_floor(1, 10)) by (nonlinear_arith);
    } else if tier == 2 {
        assert(is_install_cost_floor(2, 28)) by (nonlinear_arith);
    } else if tier == 3 {
        assert(is_install_cost_floor(3, 51)) by (nonlinear_arith);
    } else if tier == 4 {
        assert(is_install_cost_floor(4, 80)) by (nonlinear_arith);
    } else if tier == 5 {
        assert(is_install_cost_floor(5, 111)) by (nonlinear_arith);
    } else if tier == 6 {
        assert(is_install_cost_floor(6, 146)) by (nonlinear_arith);
    } else if tier == 7 {
        assert(is_install_cost_floor(7, 185)) by (nonlinear_arith);
    } else if tier == 8 {
        assert(is_install_cost_floor(8, 226)) by (nonlinear_arith);
    } else if tier == 9 {
        assert(is_install_cost_floor(9, 270)) by (nonlinear_arith);
    } else {
        assert(is_install_cost_floor(10, 316)) by (nonlinear_arith);
    }
}

/// Cost to install a plugin of `tier`: `10 * tier^1.5`, truncated.
pub fn calculate_install_cost(tier: u8) -> (r: u64)
    requires
        valid_tier(tier as int),
    ensures
        r == install_cost(tier as int),
        is_install_cost_floor(tier as int, r as int),
        10 <= r <= 316,
{
    proof {
        lemma_install_cost_floor(tier as int);
    }
    match tier {
        1 => 10,
        2 => 28,
        3 => 51,
        4 => 80,
        5 => 111,
        6 => 146,
        7 => 185,
        8 => 226,
        9 => 270,
        _ => 316,
    }
}

/// Cost to unlock `tier`: tier 1 is free, tier `t` above it costs `10 * 2^(t-1)`.
pub open spec fn unlock_cost(tier: int) -> int {
    if tier == 1 {
        0
    } else {
        PLUGIN_UNLOCK_BASE_COST * two_pow((tier - 1) as nat)
    }
}

/// Cost to unlock `tier`.
pub fn calculate_unlock_cost(tier: u8) -> (r: u64)
    requires
        valid_tier(tier as int),
    ensures
        r == unlock_cost(tier as int),
{
    if tier == 1 {
        return 0;
    }
    let p = pow_of_two(tier - 1);
    proof {
        reveal_with_fuel(two_pow, 11);
        lemma_two_pow_monotonic((tier - 1) as nat, 10);
    }
    PLUGIN_UNLOCK_BASE_COST * p
}

/// Seconds of production that count between `last_claim` and `now`: none when
/// `now` is not later, and never more than the tier's accumulation window.
pub open spec fn capped_elapsed(tier: int, last_claim: int, now: int) -> int {
    let cap = max_accumulation_hours(tier) * SECONDS_PER_HOUR;
    if now <= last_claim {
        0
    } else if now - last_claim < cap {
        now - last_claim
    } else {
        cap
    }
}

/// Cookies accrued by a slot of `tier` from `last_claim` to `now`: the hourly
/// rate spread over the capped elapsed seconds, rounded down.
pub open spec fn accrued_amount(tier: int, last_claim: int, now: int) -> int {
    production_rate(tier) * capped_elapsed(tier, last_claim, now) / SECONDS_PER_HOUR as int
}

/// Cookies accrued by a slot of `tier` from `last_claim` to `current_time`.
pub fn calculate_accumulated_cookies(tier: u8, last_claim: i64, current_time: i64) -> (r: u64)
    requires
        valid_tier(tier as int),
    ensures
        r == accrued_amount(tier as int, last_claim as int, current_time as int),
{
    let production_per_hour = calculate_production_rate(tier);
    let max_seconds: i64 = get_max_accumulation_hours(tier) * SECONDS_PER_HOUR;
    let seconds_capped: u64 = if current_time <= last_claim {
        0
    } else {
        let elapsed: i128 = current_time as i128 - last_claim as i128;
        if elapsed < max_seconds as i128 {
            elapsed as u64
        } else {
            max_seconds as u64
        }
    };
    assert(production_per_hour * seconds_capped <= 31547 * 86400) by (nonlinear_arith)
        requires
            production_per_hour <= 31547,
            seconds_capped <= 86400,
    ;
    production_per_hour * seconds_capped / (SECONDS_PER_HOUR as u64)
}

/// Unlocking tier 1 is free, and every higher tier costs strictly more to
/// unlock than every lower one.
pub proof fn lemma_unlock_cost_strictly_increasing(lower: int, higher: int)
    requires
        1 <= lower < higher <= 10,
    ensures
        unlock_cost(1) == 0,
        unlock_cost(lower) < unlock_cost(higher),
{
    lemma_two_pow_positive((higher - 2) as nat);
    if lower > 1 {
        lemma_two_pow_positive((lower - 1) as nat);
        lemma_two_pow_monotonic((lower - 1) as nat, (higher - 2) as nat);
    }
    assert(two_pow((higher - 1) as nat) == 2 * two_pow((higher - 2) as nat));
}

/// Nothing accrues over an empty interval.
pub proof fn lemma_accrued_zero_when_no_time_passes(tier: int, t: int)
    ensures
        accrued_amount(tier, t, t) == 0,
{
}

/// Accrual never decreases as the claim time moves later.
pub proof fn lemma_accrued_monotonic(tier: int, last_claim: int, now1: int, now2: int)
    requires
        valid_tier(tier),
        now1 <= now2,
    ensures
        accrued_amount(tier, last_claim, now1) <= accrued_amount(tier, last_claim, now2),
{
    let rate = production_rate(tier);
    let e1 = capped_elapsed(tier, last_claim, now1);
    let e2 = capped_elapsed(tier, last_claim, now2);
    assert(0 <= e1 <= e2);
    lemma_mul_inequality(e1, e2, rate);
    assert(rate * e1 <= rate * e2) by (nonlinear_arith)
        requires
            e1 * rate <= e2 * rate,
    ;
    lemma_div_is_ordered(rate * e1, rate * e2, SECONDS_PER_HOUR as int);
}

/// Once the tier's accumulation window has fully elapsed, accrual stops
/// growing: it equals the hourly rate times the window's hours.
pub proof fn lemma_accrued_saturates(tier: int, last_claim: int, now: int)
    requires
        valid_tier(tier),
        now - last_claim >= max_accumulation_hours(tier) * SECONDS_PER_HOUR,
    ensures
        accrued_amount(tier, last_claim, now) == production_rate(tier) * max_accumulation_hours(tier),
{
    reveal_with_fuel(two_pow, 3);
    let rate = production_rate(tier);
    let hours = max_accumulation_hours(tier);
    assert(capped_elapsed(tier, last_claim, now) == hours * 3600);
    assert(rate * (hours * 3600) == (rate * hours) * 3600) by (nonlinear_arith);
    lemma_div_multiples_vanish(rate * hours, 3600);
}

} // verus!
