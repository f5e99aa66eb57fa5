//! One pair in one block: what to try, and what to offer to the slot.
//!
//! Both pools of a pair are read and priced in USDC by the caller. From
//! that this module settles the tier, which venue to buy on, and the trial
//! amounts. The caller simulates each amount on the two quoters; of the
//! simulations the last one counts. This module then makes the candidate
//! that is offered to the slot.

use vstd::prelude::*;
use crate::address::{Address, Venue, router_address, router_bytes, weth_address, weth_bytes};
use crate::amount::{be_value, u128_to_amount};
use crate::config::{
    AmountSetting, CountSetting, amount_is, count_of, default_start_amount, default_step,
    default_step_number, get_trade_config,
};
use crate::double::Double;
use crate::pool::{PoolFacts, WethSide, spec_other_token};
use crate::registry::BestTrade;
use crate::tier::{TIER_GATE, determine_tier, scan_allowed, tier_of};

verus! {

/// What the environment holds for the trial amounts of one tier.
#[derive(Clone, Copy, Debug, PartialEq, Eq, Structural)]
pub struct TierSettings {
    pub start_amount: AmountSetting,
    pub step: AmountSetting,
    pub step_number: CountSetting,
}

/// A pool's price and liquidity in USDC, and the WETH price they were
/// converted with.
#[derive(Clone, Copy, Debug, PartialEq, Eq, Structural)]
pub struct Normalized {
    pub usdc_price: Double,
    pub usdc_liquidity: Double,
    pub weth_usdc_price: Double,
}

/// What to try on a pair.
#[derive(Clone, Copy, Debug, PartialEq, Eq, Structural)]
pub struct ScanPlan {
    /// Tier of the smaller of the two liquidities.
    pub tier: u8,
    /// Buy on the first venue and sell on the second; else the other way
    /// round.
    pub buy_first: bool,
    /// The trial amounts in USDC: the first, the distance to the next, and
    /// how many.
    pub start_amount: Double,
    pub step: Double,
    pub step_number: u32,
}

/// The outcome of one trial amount.
#[derive(Clone, Copy, Debug, PartialEq, Eq, Structural)]
pub struct Simulation {
    /// What the round trip leaves, in USDC.
    pub profit: Double,
    /// The amount given on the buying leg, in WETH.
    pub amount_weth: Double,
    /// What the buying leg gives, in the other token.
    pub buy_out: Double,
    pub buy_fee: u32,
    pub sell_fee: u32,
}

/// The venue to buy on is the first: its price lies strictly below the
/// other's. At equal prices it is the second.
pub fn buy_on_first(first_price: Double, second_price: Double) -> (r: bool)
    ensures
        r == first_price.spec_lt(second_price),
{
    first_price.lt(second_price)
}

/// The venues in the order buy, sell.
pub fn order_venues(buy_first: bool, first: Venue, second: Venue) -> (r: (Venue, Venue))
    ensures
        r == if buy_first {
            (first, second)
        } else {
            (second, first)
        },
{
    if buy_first {
        (first, second)
    } else {
        (second, first)
    }
}

/// The plan `p` is the one for these two pools under these settings.
pub open spec fn plan_matches(
    p: ScanPlan,
    first: Normalized,
    second: Normalized,
    settings: TierSettings,
) -> bool {
    &&& p.tier == tier_of(first.usdc_liquidity.spec_min(second.usdc_liquidity))
    &&& p.buy_first == first.usdc_price.spec_lt(second.usdc_price)
    &&& amount_is(p.start_amount, settings.start_amount, default_start_amount(p.tier))
    &&& amount_is(p.step, settings.step, default_step(p.tier))
    &&& p.step_number == count_of(settings.step_number, default_step_number(p.tier))
}

/// The tier of a pair: that of the smaller of its two liquidities.
pub fn pair_tier(first_liquidity: Double, second_liquidity: Double) -> (tier: u8)
    ensures
        tier == tier_of(first_liquidity.spec_min(second_liquidity)),
        tier < TIER_GATE,
{
    determine_tier(first_liquidity.min(second_liquidity))
}

/// Settles what to try on a pair. `settings` holds, for each tier from 0
/// to 5, what the environment sets for it. A pair is passed over where its
/// tier is 6 or more, which no liquidity gives: every pair gets a plan.
pub fn plan_scan(first: &Normalized, second: &Normalized, settings: &[TierSettings; 6]) -> (r:
    Option<ScanPlan>)
    ensures
        r is Some,
        r matches Some(p) && plan_matches(p, *first, *second, settings@[p.tier as int]),
{
    let tier: u8 = pair_tier(first.usdc_liquidity, second.usdc_liquidity);
    if !scan_allowed(tier) {
        return None;
    }
    let chosen: TierSettings = settings[tier as usize];
    let (start_amount, step, step_number) = get_trade_config(
        tier,
        chosen.start_amount,
        chosen.step,
        chosen.step_number,
    );
    Some(
        ScanPlan {
            tier,
            buy_first: buy_on_first(first.usdc_price, second.usdc_price),
            start_amount,
            step,
            step_number,
        },
    )
}

/// Of the simulations of a pair the last one counts, whatever its profit.
pub fn local_best(simulations: &Vec<Simulation>) -> (r: Option<Simulation>)
    ensures
        r == if simulations@.len() == 0 {
            None::<Simulation>
        } else {
            Some(simulations@.last())
        },
{
    let n: usize = simulations.len();
    if n == 0 {
        None
    } else {
        Some(simulations[n - 1])
    }
}

/// The decimals by which the two amounts of a candidate are scaled up:
/// those of WETH on the buying pool, and those of the other token on the
/// selling pool. Each is the token that its leg gives.
pub fn scale_decimals(buy_pool: &PoolFacts, sell_pool: &PoolFacts) -> (r: (u8, u8))
    ensures
        r.0 == match buy_pool.weth_side {
            WethSide::Token0 => buy_pool.token0_decimals,
            WethSide::Token1 => buy_pool.token1_decimals,
        },
        r.1 == match sell_pool.weth_side {
            WethSide::Token0 => sell_pool.token1_decimals,
            WethSide::Token1 => sell_pool.token0_decimals,
        },
{
    (buy_pool.weth_decimals(), sell_pool.other_decimals())
}

/// The candidate `c` is the one that the simulation `best` makes on these
/// venues.
pub open spec fn candidate_matches(
    c: BestTrade,
    best: Simulation,
    buy_venue: Venue,
    sell_venue: Venue,
    buy_pool: PoolFacts,
    buy_amount_scaled: Double,
    sell_amount_scaled: Double,
) -> bool {
    &&& c.profit_usdc == best.profit
    &&& c.buy_dex@ == router_bytes(buy_venue)
    &&& c.sell_dex@ == router_bytes(sell_venue)
    &&& c.buy_token_in@ == weth_bytes()
    &&& c.buy_token_out == spec_other_token(buy_pool)
    &&& c.sell_token_in == spec_other_token(buy_pool)
    &&& c.sell_token_out@ == weth_bytes()
    &&& c.buy_fee == best.buy_fee
    &&& c.sell_fee == best.sell_fee
    &&& be_value(c.buy_amount@) == buy_amount_scaled.spec_to_u128()
    &&& be_value(c.sell_amount@) == sell_amount_scaled.spec_to_u128()
}

/// Makes the candidate of a simulation. The two scaled amounts are the
/// simulation's `amount_weth` and `buy_out`, each times ten to the power of
/// its decimals (see [`scale_decimals`]); they are cut to whole numbers of
/// 128 bits.
pub fn build_candidate(
    best: &Simulation,
    buy_venue: Venue,
    sell_venue: Venue,
    buy_pool: &PoolFacts,
    buy_amount_scaled: Double,
    sell_amount_scaled: Double,
) -> (c: BestTrade)
    ensures
        candidate_matches(
            c,
            *best,
            buy_venue,
            sell_venue,
            *buy_pool,
            buy_amount_scaled,
            sell_amount_scaled,
        ),
{
    let token: Address = buy_pool.other_token();
    BestTrade {
        profit_usdc: best.profit,
        buy_dex: router_address(buy_venue),
        buy_token_in: weth_address(),
        buy_token_out: token,
        buy_fee: best.buy_fee,
        buy_amount: u128_to_amount(buy_amount_scaled.to_u128()),
        sell_dex: router_address(sell_venue),
        sell_token_in: token,
        sell_token_out: weth_address(),
        sell_fee: best.sell_fee,
        sell_amount: u128_to_amount(sell_amount_scaled.to_u128()),
    }
}

} // verus!
