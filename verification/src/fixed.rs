use vstd::prelude::*;

verus! {

/// Number of fixed-point units in 1.0: prices, rates and fractions carry
/// nine decimal places throughout the library.
pub const SCALE: u128 = 1_000_000_000;

/// `SCALE * SCALE`: the scale a product of two scaled values carries.
pub const SCALE_SQ: u128 = 1_000_000_000_000_000_000;

/// Largest price the library represents. Decoders reject anything above it,
/// so spread and fee arithmetic downstream stays within `u128`.
pub const MAX_PRICE: u128 = 1_000_000_000_000_000_000_000_000_000;

/// Largest decimal exponent a pool layout may declare for an asset.
pub const MAX_DECIMALS: u8 = 18;

/// Ten to the power `e`.
pub open spec fn pow10(e: nat) -> nat
    decreases e,
{
    if e == 0 {
        1
    } else {
        10 * pow10((e - 1) as nat)
    }
}

pub proof fn lemma_pow10_pos(e: nat)
    ensures
        pow10(e) >= 1,
    decreases e,
{
    if e > 0 {
        lemma_pow10_pos((e - 1) as nat);
    }
}

pub proof fn lemma_pow10_mono(a: nat, b: nat)
    requires
        a <= b,
    ensures
        pow10(a) <= pow10(b),
    decreases b,
{
    if a < b {
        lemma_pow10_mono(a, (b - 1) as nat);
        lemma_pow10_pos((b - 1) as nat);
    }
}

/// Computes ten to the power `e`.
pub fn pow10_u128(e: u8) -> (r: u128)
    requires
        e <= 38,
    ensures
        r == pow10(e as nat),
{
    proof {
        reveal_with_fuel(pow10, 40);
        assert(pow10(38) == 100_000_000_000_000_000_000_000_000_000_000_000_000);
    }
    let mut r: u128 = 1;
    let mut i: u8 = 0;
    while i < e
        invariant
            i <= e,
            e <= 38,
            r == pow10(i as nat),
            pow10(38) == 100_000_000_000_000_000_000_000_000_000_000_000_000,
        decreases e - i,
    {
        proof {
            lemma_pow10_mono((i + 1) as nat, 38);
        }
        assert(10 * pow10(i as nat) == pow10((i + 1) as nat));
        r = r * 10;
        i = i + 1;
    }
    r
}

/// The unsigned 64-bit integer held little-endian in the eight bytes of
/// `data` starting at `off`.
pub open spec fn le_u64_at(data: Seq<u8>, off: int) -> int {
    data[off] + 256 * data[off + 1] + 65536 * data[off + 2] + 16777216 * data[off + 3]
        + 4294967296 * data[off + 4] + 1099511627776 * data[off + 5]
        + 281474976710656 * data[off + 6] + 72057594037927936 * data[off + 7]
}

/// Reads the little-endian 64-bit field at byte offset `off`.
pub fn read_u64_le(data: &Vec<u8>, off: usize) -> (r: u64)
    requires
        off + 8 <= data@.len(),
    ensures
        r == le_u64_at(data@, off as int),
{
    let _n = data.len();
    let b0 = data[off] as u64;
    let b1 = data[off + 1] as u64;
    let b2 = data[off + 2] as u64;
    let b3 = data[off + 3] as u64;
    let b4 = data[off + 4] as u64;
    let b5 = data[off + 5] as u64;
    let b6 = data[off + 6] as u64;
    let b7 = data[off + 7] as u64;
    b0 + b1 * 256 + b2 * 65536 + b3 * 16777216 + b4 * 4294967296 + b5 * 1099511627776
        + b6 * 281474976710656 + b7 * 72057594037927936
}

/// Multiplies two fixed-point magnitudes, reporting `None` where the exact
/// product does not fit in `u128`.
pub fn mul_guarded(n: u128, m: u128) -> (r: Option<u128>)
    requires
        m > 0,
    ensures
        r is Some <==> n * m <= u128::MAX,
        r is Some ==> r->Some_0 == n * m,
{
    let q = u128::MAX / m;
    proof {
        vstd::arithmetic::div_mod::lemma_fundamental_div_mod(u128::MAX as int, m as int);
        if n <= q {
            vstd::arithmetic::mul::lemma_mul_inequality(n as int, q as int, m as int);
        } else {
            vstd::arithmetic::mul::lemma_mul_inequality(q as int + 1, n as int, m as int);
            assert((q + 1) * m == q * m + m) by (nonlinear_arith);
        }
    }
    if n <= q {
        Some(n * m)
    } else {
        None
    }
}

} // verus!
