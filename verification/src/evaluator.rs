use vstd::prelude::*;

use crate::aggregator::{spec_abs_spread, spec_rel_spread, compute_spread};
use crate::decoder::PriceSample;
use crate::fixed::{mul_guarded, MAX_PRICE, SCALE};

verus! {

/// The evaluation policy: threshold and the fee, slippage and sizing model.
/// All rates are fractions scaled by `SCALE`.
#[derive(Clone, Copy, PartialEq, Eq, Structural, Debug)]
pub struct EvalConfig {
    /// Relative spread above which (strictly) an opportunity may be emitted.
    pub threshold_rel: u128,
    /// Round-trip fee per unit of combined notional.
    pub fee_rate: u128,
    /// Slippage allowance per unit of buy-side notional.
    pub slip_rate: u128,
    /// Largest fraction of the smaller venue's depth a trade may consume.
    pub max_trade_fraction: u128,
}

impl EvalConfig {
    pub open spec fn wf(self) -> bool {
        self.fee_rate <= SCALE && self.slip_rate <= SCALE && self.max_trade_fraction <= SCALE
    }
}

/// A detected opportunity: where to buy and sell, the observed prices and
/// depths, the spread, the proposed size and the profit estimate.
#[derive(Clone, Copy, PartialEq, Eq, Structural, Debug)]
pub struct ArbitrageOpportunity {
    pub buy_venue: u32,
    pub sell_venue: u32,
    /// Price on the cheaper venue, where the engine buys.
    pub price_buy: u128,
    /// Price on the richer venue, where the engine sells.
    pub price_sell: u128,
    /// Depth of the buy-side pool, base units.
    pub depth_buy: u64,
    /// Depth of the sell-side pool, base units.
    pub depth_sell: u64,
    /// Absolute spread, price units.
    pub spread_abs: u128,
    /// Relative spread over the smaller price, scaled by `SCALE`.
    pub spread_rel: u128,
    /// Proposed trade size, base units.
    pub size: u64,
    /// Net edge per base unit after fees and slippage, price units.
    pub net_edge: u128,
    /// Estimated net profit: `net_edge * size`, saturated at `u128::MAX`.
    pub est_net_profit: u128,
}

/// Proposed trade size: the smaller depth scaled down by the configured
/// fraction.
pub open spec fn spec_trade_size(cfg: EvalConfig, depth_buy: int, depth_sell: int) -> int {
    (if depth_buy <= depth_sell {
        depth_buy
    } else {
        depth_sell
    }) * cfg.max_trade_fraction / SCALE as int
}

/// Estimated round-trip cost per base unit: fees on both legs' notional plus
/// the slippage allowance on the buy leg.
pub open spec fn spec_unit_cost(cfg: EvalConfig, price_buy: int, price_sell: int) -> int {
    (price_buy + price_sell) * cfg.fee_rate / (SCALE as int) + price_buy * cfg.slip_rate / (
    SCALE as int)
}

/// The evaluator's decision as a mathematical function of the two samples.
/// An opportunity is emitted only when the relative spread strictly exceeds
/// the threshold, the absolute spread strictly exceeds the per-unit cost,
/// and the proposed size is positive.
pub open spec fn evaluate_spec(cfg: EvalConfig, a: PriceSample, b: PriceSample) -> Option<
    ArbitrageOpportunity,
> {
    let (buy, sell) = if a.price <= b.price {
        (a, b)
    } else {
        (b, a)
    };
    let abs = spec_abs_spread(a.price as int, b.price as int);
    let rel = spec_rel_spread(a.price as int, b.price as int);
    let size = spec_trade_size(cfg, buy.depth as int, sell.depth as int);
    let cost = spec_unit_cost(cfg, buy.price as int, sell.price as int);
    if rel > cfg.threshold_rel && abs > cost && size > 0 {
        let edge = abs - cost;
        Some(
            ArbitrageOpportunity {
                buy_venue: buy.venue,
                sell_venue: sell.venue,
                price_buy: buy.price,
                price_sell: sell.price,
                depth_buy: buy.depth,
                depth_sell: sell.depth,
                spread_abs: abs as u128,
                spread_rel: rel as u128,
                size: size as u64,
                net_edge: edge as u128,
                est_net_profit: if edge * size <= u128::MAX {
                    (edge * size) as u128
                } else {
                    u128::MAX
                },
            },
        )
    } else {
        None
    }
}

/// Applies the evaluation policy to one comparable pair of samples.
pub fn evaluate(cfg: &EvalConfig, a: &PriceSample, b: &PriceSample) -> (r: Option<
    ArbitrageOpportunity,
>)
    requires
        cfg.wf(),
        a.wf(),
        b.wf(),
    ensures
        r == evaluate_spec(*cfg, *a, *b),
        r matches Some(o) ==> o.spread_rel > cfg.threshold_rel,
{
    let (buy, sell) = if a.price <= b.price {
        (*a, *b)
    } else {
        (*b, *a)
    };
    let spread = compute_spread(a.price, b.price);

    // Proposed size: smaller depth scaled by the configured fraction.
    let depth_small: u64 = if buy.depth <= sell.depth {
        buy.depth
    } else {
        sell.depth
    };
    proof {
        assert(depth_small as int * cfg.max_trade_fraction as int <= u64::MAX * SCALE)
            by (nonlinear_arith)
            requires
                depth_small <= u64::MAX,
                cfg.max_trade_fraction <= SCALE,
        ;
    }
    let size_wide: u128 = (depth_small as u128) * cfg.max_trade_fraction / SCALE;
    proof {
        vstd::arithmetic::mul::lemma_mul_inequality(
            cfg.max_trade_fraction as int,
            SCALE as int,
            depth_small as int,
        );
        vstd::arithmetic::div_mod::lemma_div_is_ordered(
            depth_small as int * cfg.max_trade_fraction as int,
            depth_small as int * SCALE as int,
            SCALE as int,
        );
        vstd::arithmetic::div_mod::lemma_div_multiples_vanish(depth_small as int, SCALE as int);
        assert(depth_small as int * cfg.max_trade_fraction as int == cfg.max_trade_fraction as int
            * depth_small as int) by (nonlinear_arith);
        assert(depth_small as int * SCALE as int == SCALE as int * depth_small as int)
            by (nonlinear_arith);
    }
    assert(size_wide <= depth_small);
    let size: u64 = size_wide as u64;

    // Per-unit cost: fees on both legs plus slippage on the buy leg.
    proof {
        assert((buy.price as int + sell.price as int) * cfg.fee_rate as int <= 2 * MAX_PRICE
            * SCALE) by (nonlinear_arith)
            requires
                buy.price as int + sell.price as int <= 2 * MAX_PRICE,
                cfg.fee_rate <= SCALE,
        ;
        assert(buy.price as int * cfg.slip_rate as int <= MAX_PRICE * SCALE) by (nonlinear_arith)
            requires
                buy.price <= MAX_PRICE,
                cfg.slip_rate <= SCALE,
        ;
    }
    let fee_cost: u128 = (buy.price + sell.price) * cfg.fee_rate / SCALE;
    let slip_cost: u128 = buy.price * cfg.slip_rate / SCALE;
    proof {
        vstd::arithmetic::div_mod::lemma_div_is_ordered(
            (buy.price as int + sell.price as int) * cfg.fee_rate as int,
            2 * MAX_PRICE * SCALE,
            SCALE as int,
        );
        vstd::arithmetic::div_mod::lemma_div_is_ordered(
            buy.price as int * cfg.slip_rate as int,
            MAX_PRICE * SCALE,
            SCALE as int,
        );
    }
    let cost: u128 = fee_cost + slip_cost;

    if spread.rel > cfg.threshold_rel && spread.abs > cost && size > 0 {
        let edge: u128 = spread.abs - cost;
        let est_net_profit: u128 = match mul_guarded(edge, size as u128) {
            Some(p) => p,
            None => u128::MAX,
        };
        Some(
            ArbitrageOpportunity {
                buy_venue: buy.venue,
                sell_venue: sell.venue,
                price_buy: buy.price,
                price_sell: sell.price,
                depth_buy: buy.depth,
                depth_sell: sell.depth,
                spread_abs: spread.abs,
                spread_rel: spread.rel,
                size,
                net_edge: edge,
                est_net_profit,
            },
        )
    } else {
        None
    }
}

/// The threshold is strictly exclusive: an opportunity is emitted only when
/// the relative spread exceeds it, and a spread exactly at the threshold
/// never triggers. With no fee or slippage configured and a positive
/// proposed size, the threshold test alone decides.
pub proof fn law_threshold_strict(cfg: EvalConfig, a: PriceSample, b: PriceSample)
    requires
        cfg.wf(),
        a.wf(),
        b.wf(),
    ensures
        evaluate_spec(cfg, a, b) is Some ==> spec_rel_spread(a.price as int, b.price as int)
            > cfg.threshold_rel,
        spec_rel_spread(a.price as int, b.price as int) == cfg.threshold_rel ==> evaluate_spec(
            cfg,
            a,
            b,
        ) is None,
        (cfg.fee_rate == 0 && cfg.slip_rate == 0 && spec_trade_size(
            cfg,
            (if a.price <= b.price {
                a.depth
            } else {
                b.depth
            }) as int,
            (if a.price <= b.price {
                b.depth
            } else {
                a.depth
            }) as int,
        ) > 0) ==> (evaluate_spec(cfg, a, b) is Some <==> spec_rel_spread(
            a.price as int,
            b.price as int,
        ) > cfg.threshold_rel),
{
    let abs = spec_abs_spread(a.price as int, b.price as int);
    let rel = spec_rel_spread(a.price as int, b.price as int);
    let min = if a.price <= b.price {
        a.price as int
    } else {
        b.price as int
    };
    if cfg.fee_rate == 0 && cfg.slip_rate == 0 {
        let buy_p = if a.price <= b.price {
            a.price as int
        } else {
            b.price as int
        };
        let sell_p = if a.price <= b.price {
            b.price as int
        } else {
            a.price as int
        };
        assert(spec_unit_cost(cfg, buy_p, sell_p) == 0) by {
            assert((buy_p + sell_p) * 0 == 0) by (nonlinear_arith);
            assert(buy_p * 0 == 0) by (nonlinear_arith);
        }
        if rel > cfg.threshold_rel {
            // A positive relative spread forces a positive absolute spread.
            if abs == 0 {
                assert(0int * SCALE as int == 0) by (nonlinear_arith);
            }
        }
    }
}

/// The evaluator is deterministic in the fields an `ExecutionRecord` keeps:
/// the decision depends only on the samples' venues, prices and depths, so
/// re-evaluating a recorded opportunity's inputs reproduces the decision.
pub proof fn law_reevaluation_reproduces_decision(
    cfg: EvalConfig,
    a1: PriceSample,
    b1: PriceSample,
    a2: PriceSample,
    b2: PriceSample,
)
    requires
        a1.venue == a2.venue,
        a1.price == a2.price,
        a1.depth == a2.depth,
        b1.venue == b2.venue,
        b1.price == b2.price,
        b1.depth == b2.depth,
    ensures
        evaluate_spec(cfg, a1, b1) == evaluate_spec(cfg, a2, b2),
{
}

} // verus!
