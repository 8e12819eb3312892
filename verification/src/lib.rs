//! Statistically rigorous micro-benchmark engine.
//!
//! The crate plans adaptive measurement schedules, accounts for heap
//! allocations during a traced window, validates the benchmark
//! configuration, and prepares the data that the statistical estimator
//! consumes. Every function here carries a contract checked by Verus.

pub mod bench;
pub mod config;
pub mod error;
pub mod filter;
pub mod fmt;
pub mod memory;
pub mod output;
pub mod reporter;
pub mod sys;

pub use bench::duration_ns;
pub use bench::BenchmarkResult;
pub use config::BenchmarkConfig;
pub use error::Error;
pub use fmt::Bytes;
pub use memory::MemoryUsage;
pub use memory::TraceAllocator;
