//! Decision logic of a rate-limited OLTP workload generator for a small
//! marketplace store: random id draws, the token-bucket limiter, bulk-load
//! partitioning, per-worker token spending, the three transaction bodies'
//! business rules and the rolling latency percentiles.

pub mod random;
pub mod limiter;
pub mod prepare;
pub mod service;
pub mod entity;
pub mod workload;
pub mod metrics;
pub mod run;
