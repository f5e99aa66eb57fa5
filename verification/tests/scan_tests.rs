use arbiscan::address::{
    camelot_router_address, uniswap_router_address, weth_address, Venue,
};
use arbiscan::config::{AmountSetting, CountSetting};
use arbiscan::double::Double;
use arbiscan::pool::{examine, PoolFacts, PoolReading};
use arbiscan::registry::BestTrade;
use arbiscan::scan::{
    build_candidate, buy_on_first, local_best, order_venues, pair_tier, plan_scan,
    scale_decimals, Normalized, ScanPlan, Simulation, TierSettings,
};

fn d(x: f64) -> Double {
    Double::from_bits(x.to_bits())
}

fn f(x: Double) -> f64 {
    f64::from_bits(x.to_bits())
}

fn token() -> [u8; 20] {
    [0x91; 20]
}

fn no_settings() -> [TierSettings; 6] {
    [TierSettings {
        start_amount: AmountSetting::Unset,
        step: AmountSetting::Unset,
        step_number: CountSetting::Unset,
    }; 6]
}

fn pool(venue: Venue, weth_first: bool, fee: Option<u32>) -> PoolFacts {
    let (token0, token1, d0, d1) = if weth_first {
        (weth_address(), token(), 18, 18)
    } else {
        (token(), weth_address(), 18, 18)
    };
    examine(&PoolReading {
        venue,
        pool_address: [0x33; 20],
        token0,
        token1,
        token0_decimals: Some(d0),
        token1_decimals: Some(d1),
        token0_amount: [0; 32],
        token1_amount: [0; 32],
        sqrt_price_x96: [0x40; 32],
        tick: 0,
        fee,
    })
    .unwrap()
}

fn normalized(price: f64, liquidity: f64, weth_usdc: f64) -> Normalized {
    Normalized {
        usdc_price: d(price),
        usdc_liquidity: d(liquidity),
        weth_usdc_price: d(weth_usdc),
    }
}

fn amounts(plan: &ScanPlan) -> Vec<f64> {
    (0..plan.step_number).map(|i| f(plan.start_amount) + f(plan.step) * i as f64).collect()
}

/// Runs the trial amounts of a plan against quoters that give `1 + gain`
/// times what they are given, on both legs.
fn simulate(plan: &ScanPlan, weth_usdc: f64, gain: f64, buy_fee: u32, sell_fee: u32) -> Vec<Simulation> {
    amounts(plan)
        .into_iter()
        .map(|amount| {
            let amount_weth = amount / weth_usdc;
            let buy_out = amount_weth * (1.0 + gain);
            let sell_out = buy_out * (1.0 + gain);
            Simulation {
                profit: d(sell_out * weth_usdc - amount),
                amount_weth: d(amount_weth),
                buy_out: d(buy_out),
                buy_fee,
                sell_fee,
            }
        })
        .collect()
}

fn big_endian(x: u128) -> [u8; 32] {
    let mut a = [0u8; 32];
    a[16..].copy_from_slice(&x.to_be_bytes());
    a
}

/// One pair through one block, with the quoters of `simulate`.
fn scan_pair(slot: &mut BestTrade, liquidity: f64, gain: f64) -> Option<BestTrade> {
    let weth_usdc = 2000.0;
    let first = normalized(100.0, liquidity, weth_usdc);
    let second = normalized(101.0, liquidity * 2.0, weth_usdc);
    let plan = plan_scan(&first, &second, &no_settings())?;
    let (buy_venue, sell_venue) = order_venues(plan.buy_first, Venue::Camelot, Venue::Uniswap);
    let camelot = pool(Venue::Camelot, true, None);
    let uniswap = pool(Venue::Uniswap, false, Some(500));
    let (buy_pool, sell_pool) = if plan.buy_first { (camelot, uniswap) } else { (uniswap, camelot) };
    let best = local_best(&simulate(&plan, weth_usdc, gain, 120, 500))?;
    let (buy_decimals, sell_decimals) = scale_decimals(&buy_pool, &sell_pool);
    let candidate = build_candidate(
        &best,
        buy_venue,
        sell_venue,
        &buy_pool,
        d(f(best.amount_weth) * 10f64.powi(buy_decimals as i32)),
        d(f(best.buy_out) * 10f64.powi(sell_decimals as i32)),
    );
    slot.offer(&candidate);
    Some(candidate)
}

#[test]
fn first_positive_profit() {
    let first = normalized(100.0, 30_000.0, 2000.0);
    let second = normalized(101.0, 60_000.0, 2000.0);
    let plan = plan_scan(&first, &second, &no_settings()).unwrap();
    assert_eq!(plan.tier, 1);
    assert_eq!(amounts(&plan), vec![100.0, 200.0, 300.0, 400.0, 500.0]);

    let mut slot = BestTrade::new();
    let candidate = scan_pair(&mut slot, 30_000.0, 0.01).unwrap();
    assert_eq!(slot, candidate);
    assert!(f(slot.profit_usdc) > 0.0);
    // the largest amount, 500 USDC, wins
    assert_eq!(f(slot.profit_usdc), 0.25 * 1.01 * 1.01 * 2000.0 - 500.0);
    assert_eq!(slot.buy_amount, big_endian(250_000_000_000_000_000));
    assert_eq!(slot.sell_amount, big_endian(252_500_000_000_000_000));
    assert_eq!(slot.sell_amount, big_endian((0.25f64 * 1.01 * 1e18).round() as u128));
    assert_eq!(slot.buy_dex, camelot_router_address());
    assert_eq!(slot.sell_dex, uniswap_router_address());
    assert_eq!(slot.buy_token_in, weth_address());
    assert_eq!(slot.buy_token_out, token());
    assert_eq!(slot.sell_token_in, token());
    assert_eq!(slot.sell_token_out, weth_address());
    assert_eq!(slot.buy_fee, 120);
    assert_eq!(slot.sell_fee, 500);
}

#[test]
fn monotone_guard() {
    let mut slot = BestTrade::new();
    scan_pair(&mut slot, 30_000.0, 0.01).unwrap();
    let before = slot;
    // a smaller gain on a pair of the same tier: a smaller positive profit
    let smaller = scan_pair(&mut slot, 30_000.0, 0.001).unwrap();
    assert!(f(smaller.profit_usdc) > 0.0);
    assert!(f(smaller.profit_usdc) < f(before.profit_usdc));
    assert_eq!(slot, before);
}

#[test]
fn small_liquidity_is_still_scanned() {
    let first = normalized(100.0, 10.0, 2000.0);
    let second = normalized(101.0, 5_000_000.0, 2000.0);
    let plan = plan_scan(&first, &second, &no_settings()).unwrap();
    assert_eq!(plan.tier, 0);
    assert_eq!(amounts(&plan), vec![50.0, 100.0, 150.0, 200.0]);
}

#[test]
fn liquidity_that_is_no_number_gets_the_last_tier() {
    assert_eq!(pair_tier(d(f64::NAN), d(f64::NAN)), 5);
    let plan = plan_scan(
        &normalized(100.0, f64::NAN, 2000.0),
        &normalized(101.0, f64::NAN, 2000.0),
        &no_settings(),
    )
    .unwrap();
    assert_eq!(plan.tier, 5);
    assert_eq!(amounts(&plan), vec![1.0, 2.0, 3.0, 4.0]);
    // one liquidity that is a number decides alone
    assert_eq!(pair_tier(d(f64::NAN), d(60_000.0)), 2);
    assert_eq!(pair_tier(d(250_000.0), d(f64::NAN)), 3);
    assert_eq!(pair_tier(d(-4.0), d(60_000.0)), 5);
}

#[test]
fn tier_is_that_of_the_smaller_liquidity() {
    assert_eq!(pair_tier(d(30_000.0), d(5_000_000.0)), 1);
    assert_eq!(pair_tier(d(5_000_000.0), d(30_000.0)), 1);
    assert_eq!(pair_tier(d(1e6), d(1e6)), 4);
    assert_eq!(pair_tier(d(0.0), d(-0.0)), 0);
}

#[test]
fn direction_flip() {
    assert!(buy_on_first(d(100.0), d(101.0)));
    assert_eq!(order_venues(true, Venue::Camelot, Venue::Uniswap), (Venue::Camelot, Venue::Uniswap));
    assert!(buy_on_first(d(99.0), d(100.0)));
    // at equal prices the second venue is bought on
    assert!(!buy_on_first(d(100.0), d(100.0)));
    assert_eq!(order_venues(false, Venue::Camelot, Venue::Uniswap), (Venue::Uniswap, Venue::Camelot));
    assert!(!buy_on_first(d(101.0), d(100.0)));
    assert!(!buy_on_first(d(f64::NAN), d(100.0)));
    assert!(!buy_on_first(d(100.0), d(f64::NAN)));
}

#[test]
fn plan_follows_the_settings_of_its_tier() {
    let mut settings = no_settings();
    settings[1] = TierSettings {
        start_amount: AmountSetting::Value(d(10.0)),
        step: AmountSetting::Malformed,
        step_number: CountSetting::Value(3),
    };
    settings[2] = TierSettings {
        start_amount: AmountSetting::Value(d(999.0)),
        step: AmountSetting::Value(d(999.0)),
        step_number: CountSetting::Value(99),
    };
    let plan = plan_scan(
        &normalized(5.0, 30_000.0, 2000.0),
        &normalized(4.0, 45_000.0, 2000.0),
        &settings,
    )
    .unwrap();
    assert_eq!(plan.tier, 1);
    assert!(!plan.buy_first);
    assert_eq!(amounts(&plan), vec![10.0, 11.0, 12.0]);
}

#[test]
fn the_last_simulation_counts() {
    assert_eq!(local_best(&vec![]), None);
    let s = |p: f64| Simulation { profit: d(p), amount_weth: d(1.0), buy_out: d(2.0), buy_fee: 1, sell_fee: 2 };
    assert_eq!(local_best(&vec![s(9.0)]), Some(s(9.0)));
    // the last one, although an earlier one leaves more
    assert_eq!(local_best(&vec![s(9.0), s(50.0), s(-3.0)]), Some(s(-3.0)));
}

#[test]
fn amounts_are_scaled_by_the_token_that_each_leg_gives() {
    let mut r = PoolReading {
        venue: Venue::Uniswap,
        pool_address: [0; 20],
        token0: token(),
        token1: weth_address(),
        token0_decimals: Some(6),
        token1_decimals: Some(18),
        token0_amount: [0; 32],
        token1_amount: [0; 32],
        sqrt_price_x96: [0x40; 32],
        tick: 0,
        fee: Some(500),
    };
    let a = examine(&r).unwrap();
    r.venue = Venue::Camelot;
    r.token0 = weth_address();
    r.token1 = token();
    r.token0_decimals = Some(17);
    r.token1_decimals = Some(8);
    let b = examine(&r).unwrap();
    assert_eq!(scale_decimals(&a, &b), (18, 8));
    assert_eq!(scale_decimals(&b, &a), (17, 6));
}

#[test]
fn amount_scaling() {
    let best = Simulation { profit: d(1.0), amount_weth: d(1.5), buy_out: d(3000.25), buy_fee: 0, sell_fee: 0 };
    let buy_pool = pool(Venue::Uniswap, true, Some(500));
    let c = build_candidate(
        &best,
        Venue::Uniswap,
        Venue::Camelot,
        &buy_pool,
        d(1.5 * 10f64.powi(18)),
        d(3000.25 * 10f64.powi(6)),
    );
    assert_eq!(c.buy_amount, big_endian(1_500_000_000_000_000_000));
    assert_eq!(c.sell_amount, big_endian(3_000_250_000));
    assert_eq!(c.buy_dex, uniswap_router_address());
    assert_eq!(c.sell_dex, camelot_router_address());
}

#[test]
fn amounts_out_of_range_saturate() {
    let best = Simulation { profit: d(1.0), amount_weth: d(1e30), buy_out: d(-2.0), buy_fee: 0, sell_fee: 0 };
    let buy_pool = pool(Venue::Uniswap, true, Some(500));
    let c = build_candidate(&best, Venue::Uniswap, Venue::Camelot, &buy_pool, d(1e48), d(-2e18));
    assert_eq!(c.buy_amount, big_endian(u128::MAX));
    assert_eq!(c.sell_amount, [0u8; 32]);
    let c = build_candidate(&best, Venue::Uniswap, Venue::Camelot, &buy_pool, d(f64::NAN), d(0.9));
    assert_eq!(c.buy_amount, [0u8; 32]);
    assert_eq!(c.sell_amount, [0u8; 32]);
}
