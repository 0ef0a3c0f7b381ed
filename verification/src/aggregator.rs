use vstd::prelude::*;

use crate::decoder::{decode_spec, decode_pool_state, PoolLayout, PriceSample};
use crate::errors::{CycleError, FetchError, VenueError};
use crate::fixed::{MAX_PRICE, SCALE};

verus! {

/// One venue's pool as configured: identity, on-chain address, asset pair,
/// and the account layout to decode it with.
pub struct VenuePool {
    /// Identifier of the venue this pool lives on.
    pub venue: u32,
    /// The pool account's 32-byte on-chain address.
    pub address: Vec<u8>,
    /// Identifier of the base asset.
    pub base_asset: u32,
    /// Identifier of the quote asset.
    pub quote_asset: u32,
    /// How the account blob is decoded.
    pub layout: PoolLayout,
}

impl VenuePool {
    pub open spec fn wf(self) -> bool {
        self.address@.len() == 32 && self.layout.wf()
    }
}

/// Raw account state as fetched from the node, with its read context.
pub struct AccountFetch {
    pub data: Vec<u8>,
    pub slot: u64,
    pub timestamp: u64,
}

/// Whether two pools quote the same asset pair in the same direction.
pub open spec fn spec_units_match(a: VenuePool, b: VenuePool) -> bool {
    a.base_asset == b.base_asset && a.quote_asset == b.quote_asset
}

/// Unit reconciliation: two pools are compared only when they quote the
/// same asset pair in the same direction; any other pair is rejected.
pub fn check_units(a: &VenuePool, b: &VenuePool) -> (r: Result<(), CycleError>)
    ensures
        r is Ok <==> spec_units_match(*a, *b),
        r matches Err(e) ==> e == CycleError::UnitMismatch,
{
    if a.base_asset == b.base_asset && a.quote_asset == b.quote_asset {
        Ok(())
    } else {
        Err(CycleError::UnitMismatch)
    }
}

/// What one venue's observation yields: either a sample from the decoded
/// blob, or the fetch or decode error that stopped it.
pub open spec fn observe_spec(pool: VenuePool, fetched: Result<AccountFetch, FetchError>) -> Result<
    PriceSample,
    VenueError,
> {
    match fetched {
        Err(e) => Err(VenueError::Fetch(e)),
        Ok(f) => match decode_spec(pool.layout, f.data@) {
            Err(e) => Err(VenueError::Decode(e)),
            Ok(s) => Ok(
                PriceSample {
                    venue: pool.venue,
                    price: s.price,
                    depth: s.depth,
                    timestamp: f.timestamp,
                    slot: f.slot,
                },
            ),
        },
    }
}

/// Turns one venue's fetch outcome into a price sample, or the error that
/// stopped it. Pure in its inputs: the node's answer is handed in.
pub fn observe_venue(pool: &VenuePool, fetched: &Result<AccountFetch, FetchError>) -> (r: Result<
    PriceSample,
    VenueError,
>)
    requires
        pool.wf(),
    ensures
        r == observe_spec(*pool, *fetched),
        r matches Ok(s) ==> s.wf(),
{
    match fetched {
        Err(e) => Err(VenueError::Fetch(*e)),
        Ok(f) => match decode_pool_state(&pool.layout, &f.data) {
            Err(e) => Err(VenueError::Decode(e)),
            Ok(s) => Ok(
                PriceSample {
                    venue: pool.venue,
                    price: s.price,
                    depth: s.depth,
                    timestamp: f.timestamp,
                    slot: f.slot,
                },
            ),
        },
    }
}

/// Joins the two venues' outcomes. Both must have produced a sample before
/// any spread is computed; the first venue's error wins where both failed.
pub fn reconcile_pair(a: Result<PriceSample, VenueError>, b: Result<PriceSample, VenueError>) -> (r:
    Result<(PriceSample, PriceSample), CycleError>)
    ensures
        r == (match (a, b) {
            (Err(e), _) => Err::<(PriceSample, PriceSample), CycleError>(CycleError::VenueA(e)),
            (Ok(_), Err(e)) => Err(CycleError::VenueB(e)),
            (Ok(sa), Ok(sb)) => Ok((sa, sb)),
        }),
{
    match a {
        Err(e) => Err(CycleError::VenueA(e)),
        Ok(sa) => match b {
            Err(e) => Err(CycleError::VenueB(e)),
            Ok(sb) => Ok((sa, sb)),
        },
    }
}

/// Absolute spread between two prices.
pub open spec fn spec_abs_spread(a: int, b: int) -> int {
    if a >= b {
        a - b
    } else {
        b - a
    }
}

/// Relative spread: the absolute spread over the smaller price, scaled by
/// `SCALE`.
pub open spec fn spec_rel_spread(a: int, b: int) -> int {
    spec_abs_spread(a, b) * SCALE / (if a <= b {
        a
    } else {
        b
    })
}

/// A spread observation: absolute and relative (scaled) spread.
#[derive(Clone, Copy, PartialEq, Eq, Structural, Debug)]
pub struct SpreadObs {
    pub abs: u128,
    pub rel: u128,
}

/// Computes the absolute and relative spread of two in-range prices.
pub fn compute_spread(a: u128, b: u128) -> (r: SpreadObs)
    requires
        0 < a <= MAX_PRICE,
        0 < b <= MAX_PRICE,
    ensures
        r.abs == spec_abs_spread(a as int, b as int),
        r.rel == spec_rel_spread(a as int, b as int),
{
    let abs: u128 = if a >= b {
        a - b
    } else {
        b - a
    };
    let min: u128 = if a <= b {
        a
    } else {
        b
    };
    let rel: u128 = abs * SCALE / min;
    SpreadObs { abs, rel }
}

/// The decision one whole poll cycle comes to: the evaluator's verdict on
/// the pair, or the error that stopped the cycle before any comparison.
pub open spec fn decide_cycle_spec(
    cfg: crate::evaluator::EvalConfig,
    a: Result<PriceSample, VenueError>,
    b: Result<PriceSample, VenueError>,
) -> Result<Option<crate::evaluator::ArbitrageOpportunity>, CycleError> {
    match (a, b) {
        (Err(e), _) => Err(CycleError::VenueA(e)),
        (Ok(_), Err(e)) => Err(CycleError::VenueB(e)),
        (Ok(sa), Ok(sb)) => Ok(crate::evaluator::evaluate_spec(cfg, sa, sb)),
    }
}

/// Runs one cycle's pure tail: joins the two venues' outcomes and, only when
/// both produced a sample, evaluates the pair.
pub fn decide_cycle(
    cfg: &crate::evaluator::EvalConfig,
    a: Result<PriceSample, VenueError>,
    b: Result<PriceSample, VenueError>,
) -> (r: Result<Option<crate::evaluator::ArbitrageOpportunity>, CycleError>)
    requires
        cfg.wf(),
        a matches Ok(s) ==> s.wf(),
        b matches Ok(s) ==> s.wf(),
    ensures
        r == decide_cycle_spec(*cfg, a, b),
{
    match reconcile_pair(a, b) {
        Err(e) => Err(e),
        Ok((sa, sb)) => Ok(crate::evaluator::evaluate(cfg, &sa, &sb)),
    }
}

/// A fetch or decode failure on either venue fails the whole cycle: the
/// cycle reports that venue's error and no opportunity is emitted, whatever
/// the other venue returned.
pub proof fn law_failed_venue_blocks_cycle(
    cfg: crate::evaluator::EvalConfig,
    a: Result<PriceSample, VenueError>,
    b: Result<PriceSample, VenueError>,
)
    requires
        a is Err || b is Err,
    ensures
        decide_cycle_spec(cfg, a, b) is Err,
        a matches Err(e) ==> decide_cycle_spec(cfg, a, b) == Err::<
            Option<crate::evaluator::ArbitrageOpportunity>,
            CycleError,
        >(CycleError::VenueA(e)),
        a is Ok ==> (b matches Err(e) ==> decide_cycle_spec(cfg, a, b) == Err::<
            Option<crate::evaluator::ArbitrageOpportunity>,
            CycleError,
        >(CycleError::VenueB(e))),
{
}

} // verus!
