//! Decision logic of a fan-out/fan-in price sampling pipeline.
//!
//! A fixed set of sampling workers each watch a trade-price feed for a bounded
//! window and hand one local summary to a single aggregator. This library holds
//! the rules of that pipeline as state machines and pure functions; the
//! connections, the clock, the channel and the files are driven by the caller.

pub mod aggregator;
pub mod config;
pub mod coordinator;
pub mod decimal;
pub mod decode;
pub mod replay;
pub mod worker;
