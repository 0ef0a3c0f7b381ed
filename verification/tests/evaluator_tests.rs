use arbscan::decoder::PriceSample;
use arbscan::evaluator::{evaluate, EvalConfig};

fn sample(venue: u32, price: u128, depth: u64) -> PriceSample {
    PriceSample { venue, price, depth, timestamp: 7, slot: 42 }
}

fn cfg(threshold_rel: u128) -> EvalConfig {
    EvalConfig { threshold_rel, fee_rate: 0, slip_rate: 0, max_trade_fraction: 1_000_000_000 }
}

#[test]
fn scenario_two_samples() {
    // price_a 100.50, price_b 99.80: relative spread 0.007014028.
    let a = sample(1, 100_500_000_000, 1000);
    let b = sample(2, 99_800_000_000, 1000);

    // Threshold 0.005: emitted.
    let opp = evaluate(&cfg(5_000_000), &a, &b).unwrap();
    assert_eq!(opp.spread_abs, 700_000_000);
    assert_eq!(opp.spread_rel, 7_014_028);
    assert_eq!(opp.buy_venue, 2);
    assert_eq!(opp.sell_venue, 1);
    assert_eq!(opp.price_buy, 99_800_000_000);
    assert_eq!(opp.price_sell, 100_500_000_000);
    assert_eq!(opp.size, 1000);
    assert_eq!(opp.net_edge, 700_000_000);
    assert_eq!(opp.est_net_profit, 700_000_000_000);

    // Threshold 0.01: not emitted.
    assert!(evaluate(&cfg(10_000_000), &a, &b).is_none());
}

#[test]
fn threshold_is_exclusive() {
    // Prices 100.0 and 101.0: relative spread exactly 0.01.
    let a = sample(1, 100_000_000_000, 10);
    let b = sample(2, 101_000_000_000, 10);
    assert!(evaluate(&cfg(10_000_000), &a, &b).is_none());
    assert!(evaluate(&cfg(9_999_999), &a, &b).is_some());
}

#[test]
fn fees_and_slippage_block_thin_edges() {
    let a = sample(1, 100_000_000_000, 10);
    let b = sample(2, 101_000_000_000, 10);
    // Round-trip fee of 0.5% on both legs' notional dwarfs the 1.0 spread.
    let c = EvalConfig {
        threshold_rel: 1,
        fee_rate: 5_000_000,
        slip_rate: 0,
        max_trade_fraction: 1_000_000_000,
    };
    assert!(evaluate(&c, &a, &b).is_none());
    // With a tiny fee the edge survives.
    let c2 = EvalConfig { fee_rate: 1_000, ..c };
    let opp = evaluate(&c2, &a, &b).unwrap();
    // Cost: (100.0 + 101.0) * 0.000001 = 0.000201.
    assert_eq!(opp.net_edge, 1_000_000_000 - 201_000);
}

#[test]
fn size_is_capped_by_smaller_depth() {
    let a = sample(1, 100_500_000_000, 2000);
    let b = sample(2, 99_800_000_000, 1000);
    let c = EvalConfig {
        threshold_rel: 5_000_000,
        fee_rate: 0,
        slip_rate: 0,
        max_trade_fraction: 100_000_000, // one tenth
    };
    let opp = evaluate(&c, &a, &b).unwrap();
    assert_eq!(opp.size, 100);
    assert_eq!(opp.depth_buy, 1000);
    assert_eq!(opp.depth_sell, 2000);
}

#[test]
fn zero_size_blocks() {
    let a = sample(1, 100_500_000_000, 0);
    let b = sample(2, 99_800_000_000, 1000);
    assert!(evaluate(&cfg(5_000_000), &a, &b).is_none());
}

#[test]
fn equal_prices_never_trigger() {
    let a = sample(1, 100_000_000_000, 10);
    let b = sample(2, 100_000_000_000, 10);
    assert!(evaluate(&cfg(0), &a, &b).is_none());
}

#[test]
fn reevaluation_reproduces_decision() {
    // The decision is a function of venues, prices and depths alone:
    // re-evaluating the fields kept in a record reproduces it exactly.
    let a = sample(1, 100_500_000_000, 1000);
    let b = sample(2, 99_800_000_000, 1000);
    let c = cfg(5_000_000);
    let first = evaluate(&c, &a, &b).unwrap();
    let a2 = PriceSample { timestamp: 999, slot: 1, ..a };
    let b2 = PriceSample { timestamp: 1000, slot: 2, ..b };
    let again = evaluate(&c, &a2, &b2).unwrap();
    assert_eq!(first, again);
    let rejected = evaluate(&cfg(10_000_000), &a, &b);
    let rejected_again = evaluate(&cfg(10_000_000), &a2, &b2);
    assert_eq!(rejected, rejected_again);
}
