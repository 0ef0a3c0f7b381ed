use vstd::prelude::*;

use crate::addr::{parse_pool_address, pubkey_bytes_of};
use crate::errors::{ConfigError, Setting};
use crate::fixed::{pow10, pow10_u128, lemma_pow10_mono, lemma_pow10_pos, SCALE};

verus! {

/// Poll interval used when none is configured, seconds.
pub const DEFAULT_POLL_INTERVAL: u64 = 10;

/// Confirmation timeout used when none is configured, seconds.
pub const DEFAULT_CONFIRM_TIMEOUT: u64 = 30;

/// Trade-size fraction used when none is configured: one tenth, scaled.
pub const DEFAULT_MAX_TRADE_FRACTION: u128 = 100_000_000;

/// How many times the base interval the backoff may grow to.
pub const BACKOFF_CAP_FACTOR: u64 = 8;

/// Whether byte `i` of `s` is an ASCII digit.
pub open spec fn digit_at(s: Seq<u8>, i: int) -> bool {
    48 <= s[i] <= 57
}

/// Whether bytes `from..to` of `s` are all ASCII digits.
pub open spec fn all_digits_range(s: Seq<u8>, from: int, to: int) -> bool {
    forall|j: int| from <= j < to ==> #[trigger] digit_at(s, j)
}

/// The number written in decimal in bytes `from..to` of `s`.
pub open spec fn digits_val_range(s: Seq<u8>, from: int, to: int) -> int
    decreases to - from,
{
    if to <= from {
        0
    } else {
        digits_val_range(s, from, to - 1) * 10 + (s[to - 1] - 48)
    }
}

/// Index of the first `.` in `s` at or after `i`, or the length of `s`.
pub open spec fn first_dot(s: Seq<u8>, i: int) -> int
    decreases s.len() - i,
{
    if i >= s.len() {
        s.len() as int
    } else if s[i] == 46 {
        i
    } else {
        first_dot(s, i + 1)
    }
}

proof fn lemma_first_dot_skip(s: Seq<u8>, i: int)
    requires
        0 <= i <= s.len(),
        forall|j: int| 0 <= j < i ==> s[j] != 46,
    ensures
        first_dot(s, 0) == first_dot(s, i),
    decreases i,
{
    if i > 0 {
        lemma_first_dot_skip(s, i - 1);
    }
}

/// The parsed unsigned count: defined exactly when `s` is one to eighteen
/// ASCII digits.
pub open spec fn spec_parse_count(s: Seq<u8>) -> Option<int> {
    if 1 <= s.len() <= 18 && all_digits_range(s, 0, s.len() as int) {
        Some(digits_val_range(s, 0, s.len() as int))
    } else {
        None
    }
}

/// The parsed fixed-point decimal fraction, scaled by `SCALE`: an integer
/// part of one to eighteen digits, optionally followed by `.` and one to
/// nine fractional digits.
pub open spec fn spec_parse_fixed(s: Seq<u8>) -> Option<int> {
    let p = first_dot(s, 0);
    if p == s.len() {
        match spec_parse_count(s) {
            Some(v) => Some(v * SCALE),
            None => None,
        }
    } else {
        let n = s.len() as int;
        let fl = n - p - 1;
        if 1 <= p <= 18 && 1 <= fl <= 9 && all_digits_range(s, 0, p) && all_digits_range(
            s,
            p + 1,
            n,
        ) {
            Some(
                digits_val_range(s, 0, p) * SCALE + digits_val_range(s, p + 1, n) * pow10(
                    (9 - fl) as nat,
                ),
            )
        } else {
            None
        }
    }
}

/// Reads the decimal number in bytes `from..to`, refusing anything that is
/// not entirely digits, the empty range, or more than eighteen digits.
fn parse_digits_range(s: &Vec<u8>, from: usize, to: usize) -> (r: Option<u64>)
    requires
        from <= to <= s@.len(),
        to - from <= 18,
    ensures
        r is Some <==> (from < to && all_digits_range(s@, from as int, to as int)),
        r matches Some(v) ==> v == digits_val_range(s@, from as int, to as int) && v < pow10(
            (to - from) as nat,
        ),
{
    if from == to {
        return None;
    }
    let mut acc: u64 = 0;
    let mut i: usize = from;
    while i < to
        invariant
            from <= i <= to,
            to <= s@.len(),
            to - from <= 18,
            all_digits_range(s@, from as int, i as int),
            acc == digits_val_range(s@, from as int, i as int),
            acc < pow10((i - from) as nat),
        decreases to - i,
    {
        let b = s[i];
        if b < 48 || b > 57 {
            assert(!digit_at(s@, i as int));
            return None;
        }
        proof {
            lemma_pow10_mono((i + 1 - from) as nat, 18);
            reveal_with_fuel(pow10, 20);
            assert(pow10(18) == 1_000_000_000_000_000_000);
            assert(pow10((i + 1 - from) as nat) == 10 * pow10((i - from) as nat));
        }
        acc = acc * 10 + (b - 48) as u64;
        i = i + 1;
        assert(all_digits_range(s@, from as int, i as int)) by {
            assert(forall|j: int|
                from <= j < i ==> (j < i - 1 || j == i - 1) && #[trigger] digit_at(s@, j));
        }
    }
    Some(acc)
}

/// Finds the first `.` in `s`, or its length where there is none.
fn find_dot(s: &Vec<u8>) -> (r: usize)
    ensures
        r == first_dot(s@, 0),
        r <= s@.len(),
        r < s@.len() ==> s@[r as int] == 46,
{
    let n = s.len();
    let mut i: usize = 0;
    while i < n
        invariant
            0 <= i <= n,
            n == s@.len(),
            forall|j: int| 0 <= j < i ==> s@[j] != 46,
        decreases n - i,
    {
        if s[i] == 46 {
            proof {
                lemma_first_dot_skip(s@, i as int);
            }
            return i;
        }
        i = i + 1;
    }
    proof {
        lemma_first_dot_skip(s@, n as int);
    }
    n
}

/// Parses an unsigned count (an interval or timeout in seconds).
pub fn parse_count(s: &Vec<u8>) -> (r: Option<u64>)
    ensures
        r is Some <==> spec_parse_count(s@) is Some,
        r matches Some(v) ==> spec_parse_count(s@) == Some(v as int) && v
            < 1_000_000_000_000_000_000,
{
    let n = s.len();
    if n == 0 || n > 18 {
        return None;
    }
    let r = parse_digits_range(s, 0, n);
    proof {
        crate::fixed::lemma_pow10_mono(n as nat, 18);
        reveal_with_fuel(pow10, 20);
        assert(pow10(18) == 1_000_000_000_000_000_000);
    }
    r
}

/// Parses a decimal fraction (a threshold, rate or fraction) into a
/// fixed-point value scaled by `SCALE`.
pub fn parse_fixed(s: &Vec<u8>) -> (r: Option<u128>)
    ensures
        r is Some <==> spec_parse_fixed(s@) is Some,
        r matches Some(v) ==> spec_parse_fixed(s@) == Some(v as int),
{
    let n = s.len();
    let p = find_dot(s);
    if p == n {
        if n == 0 || n > 18 {
            return None;
        }
        match parse_digits_range(s, 0, n) {
            Some(v) => {
                proof {
                    reveal_with_fuel(pow10, 20);
                    assert(pow10(18) == 1_000_000_000_000_000_000);
                }
                Some((v as u128) * SCALE)
            },
            None => None,
        }
    } else {
        // p < n and s[p] == '.': integer part then fractional part.
        let fl = n - p - 1;
        if p == 0 || p > 18 || fl == 0 || fl > 9 {
            return None;
        }
        let int_part = match parse_digits_range(s, 0, p) {
            Some(v) => v,
            None => {
                return None;
            },
        };
        let frac_part = match parse_digits_range(s, p + 1, n) {
            Some(v) => v,
            None => {
                return None;
            },
        };
        proof {
            reveal_with_fuel(pow10, 20);
            assert(pow10(18) == 1_000_000_000_000_000_000);
            assert(pow10(9) == 1_000_000_000);
            lemma_pow10_mono(p as nat, 18);
            lemma_pow10_mono((9 - fl as int) as nat, 9);
            lemma_pow10_mono(fl as nat, 9);
            lemma_pow10_pos((9 - fl as int) as nat);
            assert(frac_part * pow10((9 - fl as int) as nat) < 1_000_000_000_000_000_000)
                by (nonlinear_arith)
                requires
                    0 <= frac_part < 1_000_000_000,
                    1 <= pow10((9 - fl as int) as nat) <= 1_000_000_000,
            ;
        }
        let scale_frac = pow10_u128(9 - fl as u8);
        let v: u128 = (int_part as u128) * SCALE + (frac_part as u128) * scale_frac;
        Some(v)
    }
}

/// The raw settings as read from the environment, unparsed; `None` marks an
/// absent setting.
pub struct RawSettings {
    pub rpc_url: Option<String>,
    pub pool_a: Option<String>,
    pub pool_b: Option<String>,
    pub threshold: Option<Vec<u8>>,
    pub poll_interval: Option<Vec<u8>>,
    pub fee_rate: Option<Vec<u8>>,
    pub slippage_tolerance: Option<Vec<u8>>,
    pub max_trade_fraction: Option<Vec<u8>>,
    pub confirm_timeout: Option<Vec<u8>>,
}

/// The engine's validated configuration.
#[derive(Debug, PartialEq, Eq)]
pub struct Config {
    /// The node endpoint, kept verbatim for the network layer.
    pub rpc_url: String,
    /// The first pool's 32-byte address.
    pub pool_a: Vec<u8>,
    /// The second pool's 32-byte address.
    pub pool_b: Vec<u8>,
    /// Relative spread threshold, scaled by `SCALE`.
    pub threshold_rel: u128,
    /// Poll interval, seconds; also the backoff base.
    pub poll_interval: u64,
    /// Largest backoff interval, seconds.
    pub backoff_cap: u64,
    /// Round-trip fee rate, scaled; at most `SCALE`.
    pub fee_rate: u128,
    /// Slippage tolerance, scaled; at most `SCALE`.
    pub slip_rate: u128,
    /// Largest tradable fraction of pool depth, scaled; at most `SCALE`.
    pub max_trade_fraction: u128,
    /// Settlement confirmation timeout, seconds.
    pub confirm_timeout: u64,
}

/// The first setting the raw environment fails on, checked in a fixed
/// order, or `None` where every setting is present or validly defaulted.
pub open spec fn validate_spec(raw: RawSettings) -> Option<ConfigError> {
    if raw.rpc_url is None {
        Some(ConfigError::Missing(Setting::RpcUrl))
    } else if raw.rpc_url->Some_0@.len() == 0 {
        Some(ConfigError::Invalid(Setting::RpcUrl))
    } else if raw.pool_a is None {
        Some(ConfigError::Missing(Setting::PoolA))
    } else if pubkey_bytes_of(raw.pool_a->Some_0@) is None {
        Some(ConfigError::Invalid(Setting::PoolA))
    } else if raw.pool_b is None {
        Some(ConfigError::Missing(Setting::PoolB))
    } else if pubkey_bytes_of(raw.pool_b->Some_0@) is None {
        Some(ConfigError::Invalid(Setting::PoolB))
    } else if raw.threshold is None {
        Some(ConfigError::Missing(Setting::Threshold))
    } else if spec_parse_fixed(raw.threshold->Some_0@) is None {
        Some(ConfigError::Invalid(Setting::Threshold))
    } else if raw.poll_interval matches Some(b) && !(spec_parse_count(b@) matches Some(v) && v
        >= 1) {
        Some(ConfigError::Invalid(Setting::PollInterval))
    } else if raw.fee_rate matches Some(b) && !(spec_parse_fixed(b@) matches Some(v) && v
        <= SCALE) {
        Some(ConfigError::Invalid(Setting::FeeRate))
    } else if raw.slippage_tolerance matches Some(b) && !(spec_parse_fixed(b@) matches Some(v) && v
        <= SCALE) {
        Some(ConfigError::Invalid(Setting::SlippageTolerance))
    } else if raw.max_trade_fraction matches Some(b) && !(spec_parse_fixed(b@) matches Some(v) && v
        <= SCALE) {
        Some(ConfigError::Invalid(Setting::MaxTradeFraction))
    } else {
        if raw.confirm_timeout matches Some(b) && !(spec_parse_count(b@) matches Some(v) && v
            >= 1) {
            Some(ConfigError::Invalid(Setting::ConfirmTimeout))
        } else {
            None
        }
    }
}

impl Config {
    /// Validates and parses the raw settings, failing fast on the first
    /// absent or unparsable one; optional settings fall back to defaults.
    pub fn build(raw: &RawSettings) -> (r: Result<Config, ConfigError>)
        ensures
            r is Err <==> validate_spec(*raw) is Some,
            r matches Err(e) ==> validate_spec(*raw) == Some(e),
            r matches Ok(c) ==> {
                &&& c.rpc_url@ == raw.rpc_url->Some_0@
                &&& pubkey_bytes_of(raw.pool_a->Some_0@) == Some(c.pool_a@)
                &&& pubkey_bytes_of(raw.pool_b->Some_0@) == Some(c.pool_b@)
                &&& spec_parse_fixed(raw.threshold->Some_0@) == Some(c.threshold_rel as int)
                &&& c.poll_interval as int == (match raw.poll_interval {
                    Some(b) => spec_parse_count(b@)->Some_0,
                    None => DEFAULT_POLL_INTERVAL as int,
                })
                &&& c.backoff_cap == c.poll_interval * BACKOFF_CAP_FACTOR
                &&& c.fee_rate as int == (match raw.fee_rate {
                    Some(b) => spec_parse_fixed(b@)->Some_0,
                    None => 0,
                })
                &&& c.slip_rate as int == (match raw.slippage_tolerance {
                    Some(b) => spec_parse_fixed(b@)->Some_0,
                    None => 0,
                })
                &&& c.max_trade_fraction as int == (match raw.max_trade_fraction {
                    Some(b) => spec_parse_fixed(b@)->Some_0,
                    None => DEFAULT_MAX_TRADE_FRACTION as int,
                })
                &&& c.confirm_timeout as int == (match raw.confirm_timeout {
                    Some(b) => spec_parse_count(b@)->Some_0,
                    None => DEFAULT_CONFIRM_TIMEOUT as int,
                })
                &&& c.fee_rate <= SCALE
                &&& c.slip_rate <= SCALE
                &&& c.max_trade_fraction <= SCALE
                &&& 1 <= c.poll_interval <= c.backoff_cap
            },
    {
        let rpc_url: String = match &raw.rpc_url {
            None => {
                return Err(ConfigError::Missing(Setting::RpcUrl));
            },
            Some(u) => u.clone(),
        };
        if rpc_url.as_str().unicode_len() == 0 {
            return Err(ConfigError::Invalid(Setting::RpcUrl));
        }
        let pool_a: Vec<u8> = match &raw.pool_a {
            None => {
                return Err(ConfigError::Missing(Setting::PoolA));
            },
            Some(p) => match parse_pool_address(p.as_str(), Setting::PoolA) {
                Ok(v) => v,
                Err(e) => {
                    return Err(e);
                },
            },
        };
        let pool_b: Vec<u8> = match &raw.pool_b {
            None => {
                return Err(ConfigError::Missing(Setting::PoolB));
            },
            Some(p) => match parse_pool_address(p.as_str(), Setting::PoolB) {
                Ok(v) => v,
                Err(e) => {
                    return Err(e);
                },
            },
        };
        let threshold_rel: u128 = match &raw.threshold {
            None => {
                return Err(ConfigError::Missing(Setting::Threshold));
            },
            Some(b) => match parse_fixed(b) {
                Some(v) => v,
                None => {
                    return Err(ConfigError::Invalid(Setting::Threshold));
                },
            },
        };
        let poll_interval: u64 = match &raw.poll_interval {
            None => DEFAULT_POLL_INTERVAL,
            Some(b) => match parse_count(b) {
                Some(v) if v >= 1 => v,
                _ => {
                    return Err(ConfigError::Invalid(Setting::PollInterval));
                },
            },
        };
        let fee_rate: u128 = match &raw.fee_rate {
            None => 0,
            Some(b) => match parse_fixed(b) {
                Some(v) if v <= SCALE => v,
                _ => {
                    return Err(ConfigError::Invalid(Setting::FeeRate));
                },
            },
        };
        let slip_rate: u128 = match &raw.slippage_tolerance {
            None => 0,
            Some(b) => match parse_fixed(b) {
                Some(v) if v <= SCALE => v,
                _ => {
                    return Err(ConfigError::Invalid(Setting::SlippageTolerance));
                },
            },
        };
        let max_trade_fraction: u128 = match &raw.max_trade_fraction {
            None => DEFAULT_MAX_TRADE_FRACTION,
            Some(b) => match parse_fixed(b) {
                Some(v) if v <= SCALE => v,
                _ => {
                    return Err(ConfigError::Invalid(Setting::MaxTradeFraction));
                },
            },
        };
        let confirm_timeout: u64 = match &raw.confirm_timeout {
            None => DEFAULT_CONFIRM_TIMEOUT,
            Some(b) => match parse_count(b) {
                Some(v) if v >= 1 => v,
                _ => {
                    return Err(ConfigError::Invalid(Setting::ConfirmTimeout));
                },
            },
        };
        proof {
            reveal_with_fuel(pow10, 20);
            assert(pow10(18) == 1_000_000_000_000_000_000);
        }
        let backoff_cap: u64 = poll_interval * BACKOFF_CAP_FACTOR;
        Ok(
            Config {
                rpc_url,
                pool_a,
                pool_b,
                threshold_rel,
                poll_interval,
                backoff_cap,
                fee_rate,
                slip_rate,
                max_trade_fraction,
                confirm_timeout,
            },
        )
    }
}

} // verus!
