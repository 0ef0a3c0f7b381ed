use vstd::prelude::*;

verus! {

/// The configuration settings the engine reads at startup.
#[derive(Clone, Copy, PartialEq, Eq, Structural, Debug)]
pub enum Setting {
    RpcUrl,
    PoolA,
    PoolB,
    Threshold,
    PollInterval,
    MaxTradeFraction,
    SlippageTolerance,
    FeeRate,
    ConfirmTimeout,
}

/// Fatal startup error: a required setting is absent or cannot be parsed.
#[derive(Clone, Copy, PartialEq, Eq, Structural, Debug)]
pub enum ConfigError {
    Missing(Setting),
    Invalid(Setting),
}

/// A raw account blob could not be turned into a price.
#[derive(Clone, Copy, PartialEq, Eq, Structural, Debug)]
pub enum DecodeError {
    /// The blob is shorter than the venue's layout requires.
    TooShort,
    /// The blob's leading tag does not match the configured venue family.
    WrongDiscriminator,
    /// A reserve, square-root price, or book side is zero.
    ZeroReserve,
    /// The best bid is above the best ask.
    CrossedBook,
    /// The derived price is zero, above `MAX_PRICE`, or its scaled
    /// numerator exceeds the 128-bit range.
    PriceOutOfRange,
}

/// A transient failure while retrieving account state from the node.
#[derive(Clone, Copy, PartialEq, Eq, Structural, Debug)]
pub enum FetchError {
    Network,
    Timeout,
}

/// Why one venue produced no usable sample this cycle.
#[derive(Clone, Copy, PartialEq, Eq, Structural, Debug)]
pub enum VenueError {
    Fetch(FetchError),
    Decode(DecodeError),
}

/// Why a whole poll cycle produced no comparable pair of samples.
#[derive(Clone, Copy, PartialEq, Eq, Structural, Debug)]
pub enum CycleError {
    /// The first venue failed; its error is kept.
    VenueA(VenueError),
    /// The first venue succeeded but the second failed.
    VenueB(VenueError),
    /// The two pools do not quote the same asset pair.
    UnitMismatch,
}

/// How an attempted execution ended short of confirmation.
#[derive(Clone, Copy, PartialEq, Eq, Structural, Debug)]
pub enum ExecFailure {
    /// The transaction could not be signed or submitted.
    Submission,
    /// The on-chain price moved beyond tolerance and the trade reverted.
    Slippage,
}

} // verus!
