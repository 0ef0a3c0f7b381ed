//! Cross-venue arbitrage detection for automated-market-maker pools.
//!
//! The library holds the deterministic core of a two-venue arbitrage engine:
//! decoding venue account state into normalized fixed-point prices, computing
//! spreads, deciding when a spread is worth acting on, tracking the execution
//! engine's settlement state, and driving the supervisor's poll/backoff state
//! machine. Network access, logging and the event loop live outside the
//! library and hand it plain values.

pub mod addr;
pub mod aggregator;
pub mod config;
pub mod decoder;
pub mod errors;
pub mod evaluator;
pub mod execution;
pub mod fixed;
pub mod history;
pub mod supervisor;
