use vstd::prelude::*;

use crate::errors::DecodeError;
use crate::fixed::{le_u64_at, pow10, pow10_u128, read_u64_le, mul_guarded};
use crate::fixed::{MAX_DECIMALS, MAX_PRICE, SCALE, SCALE_SQ};

verus! {

/// The closed set of venue families the engine can decode.
#[derive(Clone, Copy, PartialEq, Eq, Structural, Debug)]
pub enum VenueKind {
    /// Reserves-based pool; price is the ratio of quote to base reserves.
    ConstantProduct,
    /// Pool quoting a scaled square-root price; price is its square, rescaled.
    ConcentratedLiquidity,
    /// Order book; price is the midpoint of best bid and best ask.
    OrderBook,
}

/// How one venue's account blob is laid out: its family and the decimal
/// exponents of the pool's two assets.
#[derive(Clone, Copy, PartialEq, Eq, Structural, Debug)]
pub struct PoolLayout {
    pub kind: VenueKind,
    pub base_decimals: u8,
    pub quote_decimals: u8,
}

impl PoolLayout {
    /// A layout is well formed when both decimal exponents are in range.
    pub open spec fn wf(self) -> bool {
        self.base_decimals <= MAX_DECIMALS && self.quote_decimals <= MAX_DECIMALS
    }
}

/// A decoded observation of one pool: its normalized price (quote per base,
/// scaled by `SCALE`) and its tradable depth in base units.
#[derive(Clone, Copy, PartialEq, Eq, Structural, Debug)]
pub struct PoolState {
    pub price: u128,
    pub depth: u64,
}

/// A single price observation of one venue.
#[derive(Clone, Copy, PartialEq, Eq, Structural, Debug)]
pub struct PriceSample {
    /// Which venue the sample came from.
    pub venue: u32,
    /// Normalized price, quote per base, scaled by `SCALE`; strictly positive.
    pub price: u128,
    /// Tradable depth at this price, in base units.
    pub depth: u64,
    /// Wall-clock time of the observation, seconds.
    pub timestamp: u64,
    /// Chain slot the account state was read at.
    pub slot: u64,
}

impl PriceSample {
    /// Every sample the library hands on carries a positive in-range price.
    pub open spec fn wf(self) -> bool {
        0 < self.price <= MAX_PRICE
    }
}

/// The leading tag byte each venue family's account blob must carry.
pub open spec fn spec_discriminator(k: VenueKind) -> u8 {
    match k {
        VenueKind::ConstantProduct => 1,
        VenueKind::ConcentratedLiquidity => 2,
        VenueKind::OrderBook => 3,
    }
}

/// The fewest bytes a blob of the given family can have.
pub open spec fn spec_min_len(k: VenueKind) -> int {
    match k {
        VenueKind::ConstantProduct => 17,
        VenueKind::ConcentratedLiquidity => 17,
        VenueKind::OrderBook => 25,
    }
}

/// The price numerator before scaling: `f0` and `f1` are the blob's first
/// two 64-bit fields.
pub open spec fn spec_num(k: VenueKind, f0: int, f1: int) -> int {
    match k {
        VenueKind::ConstantProduct => f1,
        VenueKind::ConcentratedLiquidity => f0 * f0,
        VenueKind::OrderBook => f0 + f1,
    }
}

/// The price denominator before decimal adjustment.
pub open spec fn spec_den_base(k: VenueKind, f0: int) -> int {
    match k {
        VenueKind::ConstantProduct => f0,
        VenueKind::ConcentratedLiquidity => SCALE_SQ as int,
        VenueKind::OrderBook => 2,
    }
}

/// Whether the blob's fields are invalid for the family: a zero reserve,
/// zero square-root price, an empty book side, or a crossed book.
pub open spec fn spec_field_error(k: VenueKind, f0: int, f1: int) -> Option<DecodeError> {
    match k {
        VenueKind::ConstantProduct => if f0 == 0 || f1 == 0 {
            Some(DecodeError::ZeroReserve)
        } else {
            None
        },
        VenueKind::ConcentratedLiquidity => if f0 == 0 {
            Some(DecodeError::ZeroReserve)
        } else {
            None
        },
        VenueKind::OrderBook => if f0 == 0 || f1 == 0 {
            Some(DecodeError::ZeroReserve)
        } else if f0 > f1 {
            Some(DecodeError::CrossedBook)
        } else {
            None
        },
    }
}

/// The depth reported with the price, in base units.
pub open spec fn spec_depth(k: VenueKind, f0: int, f1: int, f2: int) -> int {
    match k {
        VenueKind::ConstantProduct => f0,
        VenueKind::ConcentratedLiquidity => f1,
        VenueKind::OrderBook => f2,
    }
}

/// The exact mathematical price: numerator times `SCALE`, adjusted by the
/// two decimal exponents, divided by the denominator.
pub open spec fn spec_price(layout: PoolLayout, f0: int, f1: int) -> int {
    (spec_num(layout.kind, f0, f1) * SCALE * pow10(layout.base_decimals as nat)) / (spec_den_base(
        layout.kind,
        f0,
    ) * pow10(layout.quote_decimals as nat))
}

/// Whether the exact price is representable: its scaled numerator fits in
/// 128 bits and the quotient is positive and at most `MAX_PRICE`.
pub open spec fn spec_price_ok(layout: PoolLayout, f0: int, f1: int) -> bool {
    &&& spec_num(layout.kind, f0, f1) * SCALE * pow10(layout.base_decimals as nat) <= u128::MAX
    &&& 1 <= spec_price(layout, f0, f1) <= MAX_PRICE
}

/// What decoding a blob under a layout yields, as a mathematical function.
pub open spec fn decode_spec(layout: PoolLayout, data: Seq<u8>) -> Result<PoolState, DecodeError> {
    if data.len() < spec_min_len(layout.kind) {
        Err(DecodeError::TooShort)
    } else if data[0] != spec_discriminator(layout.kind) {
        Err(DecodeError::WrongDiscriminator)
    } else {
        let f0 = le_u64_at(data, 1);
        let f1 = le_u64_at(data, 9);
        let f2 = if layout.kind is OrderBook {
            le_u64_at(data, 17)
        } else {
            0
        };
        match spec_field_error(layout.kind, f0, f1) {
            Some(e) => Err(e),
            None => if !spec_price_ok(layout, f0, f1) {
                Err(DecodeError::PriceOutOfRange)
            } else {
                Ok(
                    PoolState {
                        price: spec_price(layout, f0, f1) as u128,
                        depth: spec_depth(layout.kind, f0, f1, f2) as u64,
                    },
                )
            },
        }
    }
}

/// The tag byte expected of the given venue family.
pub fn discriminator(k: VenueKind) -> (r: u8)
    ensures
        r == spec_discriminator(k),
{
    match k {
        VenueKind::ConstantProduct => 1,
        VenueKind::ConcentratedLiquidity => 2,
        VenueKind::OrderBook => 3,
    }
}

/// Decodes one venue's raw account blob into a normalized pool state.
///
/// Succeeds exactly when the blob is long enough for the family, carries the
/// family's tag, its fields pass the family's validity checks, and the exact
/// price is representable; the result then equals the mathematical price.
pub fn decode_pool_state(layout: &PoolLayout, data: &Vec<u8>) -> (r: Result<PoolState, DecodeError>)
    requires
        layout.wf(),
    ensures
        r == decode_spec(*layout, data@),
        r matches Ok(s) ==> 0 < s.price <= MAX_PRICE,
{
    let min_len: usize = match layout.kind {
        VenueKind::ConstantProduct => 17,
        VenueKind::ConcentratedLiquidity => 17,
        VenueKind::OrderBook => 25,
    };
    if data.len() < min_len {
        return Err(DecodeError::TooShort);
    }
    if data[0] != discriminator(layout.kind) {
        return Err(DecodeError::WrongDiscriminator);
    }
    let f0 = read_u64_le(data, 1);
    let f1 = read_u64_le(data, 9);
    let f2: u64 = match layout.kind {
        VenueKind::OrderBook => read_u64_le(data, 17),
        _ => 0,
    };

    // Family-specific field validity.
    match layout.kind {
        VenueKind::ConstantProduct => {
            if f0 == 0 || f1 == 0 {
                return Err(DecodeError::ZeroReserve);
            }
        },
        VenueKind::ConcentratedLiquidity => {
            if f0 == 0 {
                return Err(DecodeError::ZeroReserve);
            }
        },
        VenueKind::OrderBook => {
            if f0 == 0 || f1 == 0 {
                return Err(DecodeError::ZeroReserve);
            }
            if f0 > f1 {
                return Err(DecodeError::CrossedBook);
            }
        },
    }

    let num: u128 = match layout.kind {
        VenueKind::ConstantProduct => f1 as u128,
        VenueKind::ConcentratedLiquidity => {
            proof {
                assert((f0 as int) * (f0 as int) <= u128::MAX) by (nonlinear_arith)
                    requires
                        f0 <= u64::MAX,
                ;
            }
            (f0 as u128) * (f0 as u128)
        },
        VenueKind::OrderBook => f0 as u128 + f1 as u128,
    };
    let den_base: u128 = match layout.kind {
        VenueKind::ConstantProduct => f0 as u128,
        VenueKind::ConcentratedLiquidity => SCALE_SQ,
        VenueKind::OrderBook => 2,
    };
    assert(num == spec_num(layout.kind, f0 as int, f1 as int));
    assert(den_base == spec_den_base(layout.kind, f0 as int));
    assert(0 < den_base <= u64::MAX);

    let pow_base = pow10_u128(layout.base_decimals);
    let pow_quote = pow10_u128(layout.quote_decimals);
    proof {
        lemma_pow10_mono_max(layout.base_decimals as nat);
        lemma_pow10_mono_max(layout.quote_decimals as nat);
    }
    // SCALE * pow10(base_decimals) <= 10^27.
    let scale_mult: u128 = SCALE * pow_base;
    // den = den_base * pow10(quote_decimals) <= (2^64 - 1) * 10^18.
    proof {
        assert((den_base as int) * (pow_quote as int) <= u64::MAX * 1_000_000_000_000_000_000)
            by (nonlinear_arith)
            requires
                0 < den_base <= u64::MAX,
                0 < pow_quote <= 1_000_000_000_000_000_000,
        ;
        vstd::arithmetic::mul::lemma_mul_strictly_positive(den_base as int, pow_quote as int);
    }
    let den: u128 = den_base * pow_quote;

    let scaled = match mul_guarded(num, scale_mult) {
        Some(s) => s,
        None => {
            proof {
                lemma_mul_assoc(num as int, SCALE as int, pow_base as int);
            }
            return Err(DecodeError::PriceOutOfRange);
        },
    };
    proof {
        lemma_mul_assoc(num as int, SCALE as int, pow_base as int);
    }
    let price = scaled / den;
    assert(price == spec_price(*layout, f0 as int, f1 as int));
    if price == 0 || price > MAX_PRICE {
        return Err(DecodeError::PriceOutOfRange);
    }
    Ok(PoolState { price, depth: depth_of(layout.kind, f0, f1, f2) })
}

/// The depth field for the family, in base units.
fn depth_of(k: VenueKind, f0: u64, f1: u64, f2: u64) -> (r: u64)
    ensures
        r == spec_depth(k, f0 as int, f1 as int, f2 as int),
{
    match k {
        VenueKind::ConstantProduct => f0,
        VenueKind::ConcentratedLiquidity => f1,
        VenueKind::OrderBook => f2,
    }
}

proof fn lemma_pow10_mono_max(e: nat)
    requires
        e <= 18,
    ensures
        1 <= pow10(e) <= 1_000_000_000_000_000_000,
{
    crate::fixed::lemma_pow10_pos(e);
    crate::fixed::lemma_pow10_mono(e, 18);
    reveal_with_fuel(pow10, 20);
    assert(pow10(18) == 1_000_000_000_000_000_000);
}

proof fn lemma_mul_assoc(a: int, b: int, c: int)
    ensures
        a * (b * c) == a * b * c,
{
    assert(a * (b * c) == a * b * c) by (nonlinear_arith);
}

/// The constant-product decoded price is exactly the quote reserve over the
/// base reserve, adjusted by the assets' decimal exponents, and strictly
/// positive, for every reserve pair on which the price is representable.
pub proof fn law_constant_product_price(layout: PoolLayout, data: Seq<u8>)
    requires
        layout.wf(),
        layout.kind is ConstantProduct,
        data.len() >= 17,
        data[0] == spec_discriminator(layout.kind),
        le_u64_at(data, 1) > 0,  // base reserve
        le_u64_at(data, 9) > 0,  // quote reserve
        spec_price_ok(layout, le_u64_at(data, 1), le_u64_at(data, 9)),
    ensures
        decode_spec(layout, data) matches Ok(s) && s.price == le_u64_at(data, 9) * SCALE * pow10(
            layout.base_decimals as nat,
        ) / (le_u64_at(data, 1) * pow10(layout.quote_decimals as nat)) && s.price > 0,
{
}

} // verus!
