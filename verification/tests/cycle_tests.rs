use arbscan::aggregator::{
    check_units, compute_spread, decide_cycle, observe_venue, reconcile_pair, AccountFetch,
    VenuePool,
};
use arbscan::decoder::{PoolLayout, PriceSample, VenueKind};
use arbscan::errors::{CycleError, DecodeError, FetchError, VenueError};
use arbscan::evaluator::EvalConfig;

fn pool(venue: u32) -> VenuePool {
    VenuePool {
        venue,
        address: vec![0u8; 32],
        base_asset: 10,
        quote_asset: 20,
        layout: PoolLayout {
            kind: VenueKind::ConstantProduct,
            base_decimals: 0,
            quote_decimals: 0,
        },
    }
}

fn cp_blob(base: u64, quote: u64) -> Vec<u8> {
    let mut v = vec![1u8];
    v.extend_from_slice(&base.to_le_bytes());
    v.extend_from_slice(&quote.to_le_bytes());
    v
}

fn sample(venue: u32, price: u128) -> PriceSample {
    PriceSample { venue, price, depth: 1000, timestamp: 7, slot: 42 }
}

fn cfg() -> EvalConfig {
    EvalConfig {
        threshold_rel: 5_000_000,
        fee_rate: 0,
        slip_rate: 0,
        max_trade_fraction: 1_000_000_000,
    }
}

#[test]
fn observe_venue_decodes() {
    let p = pool(1);
    let fetched = Ok(AccountFetch { data: cp_blob(2, 1), slot: 42, timestamp: 7 });
    let s = observe_venue(&p, &fetched).unwrap();
    assert_eq!(s.venue, 1);
    assert_eq!(s.price, 500_000_000);
    assert_eq!(s.depth, 2);
    assert_eq!(s.slot, 42);
    assert_eq!(s.timestamp, 7);
}

#[test]
fn observe_venue_propagates_fetch_error() {
    let p = pool(1);
    let fetched = Err(FetchError::Timeout);
    assert_eq!(observe_venue(&p, &fetched), Err(VenueError::Fetch(FetchError::Timeout)));
}

#[test]
fn observe_venue_propagates_decode_error() {
    let p = pool(1);
    let fetched = Ok(AccountFetch { data: cp_blob(0, 1), slot: 42, timestamp: 7 });
    assert_eq!(
        observe_venue(&p, &fetched),
        Err(VenueError::Decode(DecodeError::ZeroReserve))
    );
}

#[test]
fn failed_venue_blocks_execution() {
    // A decode failure on either venue fails the cycle and nothing is
    // evaluated, whatever the other venue returned.
    let good = sample(1, 100_500_000_000);
    let bad = VenueError::Decode(DecodeError::WrongDiscriminator);
    let r = decide_cycle(&cfg(), Err(bad), Ok(good));
    assert_eq!(r, Err(CycleError::VenueA(bad)));
    let r = decide_cycle(&cfg(), Ok(good), Err(bad));
    assert_eq!(r, Err(CycleError::VenueB(bad)));
    let fetch_bad = VenueError::Fetch(FetchError::Network);
    let r = decide_cycle(&cfg(), Err(fetch_bad), Err(bad));
    assert_eq!(r, Err(CycleError::VenueA(fetch_bad)));
}

#[test]
fn successful_cycle_emits() {
    let a = sample(1, 100_500_000_000);
    let b = sample(2, 99_800_000_000);
    let r = decide_cycle(&cfg(), Ok(a), Ok(b)).unwrap().unwrap();
    assert_eq!(r.buy_venue, 2);
    assert_eq!(r.spread_rel, 7_014_028);
}

#[test]
fn reconcile_keeps_both_samples() {
    let a = sample(1, 100_500_000_000);
    let b = sample(2, 99_800_000_000);
    assert_eq!(reconcile_pair(Ok(a), Ok(b)), Ok((a, b)));
}

#[test]
fn units_must_match() {
    let a = pool(1);
    let mut b = pool(2);
    assert_eq!(check_units(&a, &b), Ok(()));
    b.quote_asset = 99;
    assert_eq!(check_units(&a, &b), Err(CycleError::UnitMismatch));
}

#[test]
fn spread_is_symmetric_in_magnitude() {
    let s1 = compute_spread(100_500_000_000, 99_800_000_000);
    let s2 = compute_spread(99_800_000_000, 100_500_000_000);
    assert_eq!(s1.abs, 700_000_000);
    assert_eq!(s1, s2);
}
