//! Latency and entropy-accounting benchmark for random-number sources.
//!
//! The library holds the verified core: the random sources, the parser of the
//! kernel's entropy counter, the per-worker sampling state machine, the
//! aggregation of recorded latencies into summary statistics, and the results
//! record.
pub mod entropy;
pub mod report;
pub mod rng;
pub mod stats;
pub mod worker;
