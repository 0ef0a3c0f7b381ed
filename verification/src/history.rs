use vstd::prelude::*;

use crate::fixed::{MAX_PRICE, SCALE};

verus! {

/// Largest outlier multiplier accepted: one hundred, scaled by `SCALE`.
pub const MAX_OUTLIER_MULT: u128 = 100_000_000_000;

/// The largest price in `s` (zero for an empty history).
pub open spec fn seq_max(s: Seq<u128>) -> u128
    decreases s.len(),
{
    if s.len() == 0 {
        0
    } else if s.len() == 1 {
        s[0]
    } else {
        let m = seq_max(s.drop_last());
        if s.last() > m {
            s.last()
        } else {
            m
        }
    }
}

/// The smallest price in `s` (zero for an empty history).
pub open spec fn seq_min(s: Seq<u128>) -> u128
    decreases s.len(),
{
    if s.len() == 0 {
        0
    } else if s.len() == 1 {
        s[0]
    } else {
        let m = seq_min(s.drop_last());
        if s.last() < m {
            s.last()
        } else {
            m
        }
    }
}

proof fn lemma_minmax(s: Seq<u128>, lo: u128, hi: u128)
    requires
        s.len() >= 1,
        forall|j: int| 0 <= j < s.len() ==> lo <= #[trigger] s[j] <= hi,
    ensures
        lo <= seq_min(s) <= seq_max(s) <= hi,
    decreases s.len(),
{
    if s.len() > 1 {
        lemma_minmax(s.drop_last(), lo, hi);
    }
}

/// A sample deviates too far when it leaves the band of the recent window,
/// widened on both sides by the window's own spread times the multiplier.
/// Fewer than two retained samples screen nothing.
pub open spec fn spec_is_outlier(hist: Seq<u128>, p: u128, mult: u128) -> bool {
    if hist.len() < 2 {
        false
    } else {
        let limit = (seq_max(hist) - seq_min(hist)) * mult / (SCALE as int);
        p > seq_max(hist) + limit || p + limit < seq_min(hist)
    }
}

/// The most recent prices of one venue: a bounded window, oldest dropped
/// first, used only to screen a fresh sample against recent volatility.
pub struct VenueHistory {
    /// Most samples retained; at least one.
    pub cap: usize,
    /// Retained prices, oldest first.
    pub prices: Vec<u128>,
}

impl VenueHistory {
    pub open spec fn wf(self) -> bool {
        &&& 1 <= self.cap
        &&& self.prices@.len() <= self.cap
        &&& forall|j: int| 0 <= j < self.prices@.len() ==> 0 < #[trigger] self.prices@[j]
            <= MAX_PRICE
    }

    pub fn new(cap: usize) -> (r: VenueHistory)
        requires
            cap >= 1,
        ensures
            r.cap == cap,
            r.prices@ == Seq::<u128>::empty(),
            r.wf(),
    {
        VenueHistory { cap, prices: Vec::new() }
    }

    /// Retains a fresh sample, dropping the oldest once the window is full.
    pub fn push(&mut self, p: u128)
        requires
            old(self).wf(),
            0 < p <= MAX_PRICE,
        ensures
            final (self).cap == old(self).cap,
            final (self).prices@ == (if old(self).prices@.len() < old(self).cap {
                old(self).prices@.push(p)
            } else {
                old(self).prices@.remove(0).push(p)
            }),
            final (self).wf(),
    {
        if self.prices.len() >= self.cap {
            self.prices.remove(0);
        }
        self.prices.push(p);
    }

    /// Whether a fresh sample deviates from the retained window by more than
    /// `mult` (scaled) times the window's own spread.
    pub fn is_outlier(&self, p: u128, mult: u128) -> (r: bool)
        requires
            self.wf(),
            0 < p <= MAX_PRICE,
            mult <= MAX_OUTLIER_MULT,
        ensures
            r == spec_is_outlier(self.prices@, p, mult),
    {
        let n = self.prices.len();
        if n < 2 {
            return false;
        }
        let mut mx: u128 = self.prices[0];
        let mut mn: u128 = self.prices[0];
        let mut i: usize = 1;
        while i < n
            invariant
                1 <= i <= n,
                n == self.prices@.len(),
                self.wf(),
                mx == seq_max(self.prices@.subrange(0, i as int)),
                mn == seq_min(self.prices@.subrange(0, i as int)),
            decreases n - i,
        {
            proof {
                assert(self.prices@.subrange(0, i + 1 as int).drop_last() =~= self.prices@.subrange(
                    0,
                    i as int,
                ));
            }
            let q = self.prices[i];
            if q > mx {
                mx = q;
            }
            if q < mn {
                mn = q;
            }
            i = i + 1;
        }
        proof {
            assert(self.prices@.subrange(0, n as int) =~= self.prices@);
            lemma_minmax(self.prices@, 1, MAX_PRICE);
            assert((mx - mn) as int * mult as int <= MAX_PRICE * MAX_OUTLIER_MULT)
                by (nonlinear_arith)
                requires
                    0 <= (mx - mn) as int <= MAX_PRICE,
                    mult <= MAX_OUTLIER_MULT,
            ;
            vstd::arithmetic::div_mod::lemma_div_is_ordered(
                (mx - mn) as int * mult as int,
                MAX_PRICE * MAX_OUTLIER_MULT,
                SCALE as int,
            );
        }
        let limit: u128 = (mx - mn) * mult / SCALE;
        p > mx + limit || p + limit < mn
    }
}

} // verus!
