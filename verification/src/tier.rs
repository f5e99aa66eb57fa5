//! Liquidity tiers.

use vstd::prelude::*;
use vstd::arithmetic::power2::{pow2, lemma_pow2_pos};
use crate::double::{Double, whole};

verus! {

/// The tier given to liquidity that is not a number or lies below zero.
pub const UNKNOWN_TIER: u8 = 5;

/// Tiers below this one are scanned.
pub const TIER_GATE: u8 = 6;

/// The tier of a liquidity in USDC: 4 from a million up, 3 from two hundred
/// thousand, 2 from fifty thousand, 1 from twenty thousand, 0 from zero,
/// and 5 for anything else.
pub open spec fn tier_of(liquidity: Double) -> u8 {
    if liquidity.spec_is_nan() {
        5
    } else if liquidity.scaled() >= whole(1_000_000) {
        4
    } else if liquidity.scaled() >= whole(200_000) {
        3
    } else if liquidity.scaled() >= whole(50_000) {
        2
    } else if liquidity.scaled() >= whole(20_000) {
        1
    } else if liquidity.scaled() >= 0 {
        0
    } else {
        5
    }
}

/// Classifies a liquidity in USDC.
pub fn determine_tier(liquidity: Double) -> (tier: u8)
    ensures
        tier == tier_of(liquidity),
        tier <= 5,
{
    proof {
        lemma_pow2_pos(1074);
    }
    if liquidity.ge(Double::from_u32(1_000_000)) {
        4
    } else if liquidity.ge(Double::from_u32(200_000)) {
        3
    } else if liquidity.ge(Double::from_u32(50_000)) {
        2
    } else if liquidity.ge(Double::from_u32(20_000)) {
        1
    } else if liquidity.ge(Double::from_u32(0)) {
        0
    } else {
        UNKNOWN_TIER
    }
}

/// A pair of this tier is scanned.
pub fn scan_allowed(tier: u8) -> (r: bool)
    ensures
        r == (tier < TIER_GATE),
{
    tier < TIER_GATE
}

/// Every liquidity has a tier, and a number that is not below zero has one
/// of the tiers 0 to 4.
pub proof fn lemma_tier_total(liquidity: Double)
    ensures
        tier_of(liquidity) <= 5,
        !liquidity.spec_is_nan() && liquidity.scaled() >= 0 ==> tier_of(liquidity) <= 4,
        tier_of(liquidity) < TIER_GATE,
{
}

/// From zero upwards, more liquidity never gives a lower tier.
pub proof fn lemma_tier_monotone(a: Double, b: Double)
    requires
        !a.spec_is_nan(),
        !b.spec_is_nan(),
        0 <= a.scaled() <= b.scaled(),
    ensures
        tier_of(a) <= tier_of(b),
{
    lemma_pow2_pos(1074);
    let p = pow2(1074) as int;
    assert(20_000 * p <= 50_000 * p <= 200_000 * p <= 1_000_000 * p) by (nonlinear_arith)
        requires
            p > 0,
    ;
}

} // verus!
