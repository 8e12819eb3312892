//! Benchmark configuration and its validation.
//!
//! Time budgets are held as whole nanoseconds and the confidence level
//! as parts per million, so that every rule about them is a statement
//! over plain integers. The layer that parses command-line text
//! converts to these units before handing the values in, and a
//! confidence level outside the open unit interval is rejected here,
//! before any benchmark runs.

use vstd::prelude::*;

verus! {

/// Parts per million in a whole.
pub open spec fn ppm_whole() -> int {
    1_000_000
}

/// A confidence level is a probability strictly between zero and one:
/// strictly between 0 and 1 000 000 parts per million.
pub open spec fn valid_confidence_level_ppm(ppm: u32) -> bool {
    0 < ppm < ppm_whole()
}

/// A configuration value that cannot describe any benchmark run.
#[derive(Clone, Copy, Debug, PartialEq, Eq, Structural)]
pub enum ConfigError {
    InvalidConfidenceLevel,
}

/// The engine's configuration: which benchmark names run, whether the
/// allocation tracer runs, the warm-up and measurement budgets in
/// nanoseconds, and the confidence level of the reported interval in
/// parts per million.
#[derive(Clone, Debug)]
pub struct BenchmarkConfig {
    pub filter: String,
    pub benchmem: bool,
    pub warmup_time_ns: u64,
    pub measurement_time_ns: u64,
    pub confidence_level_ppm: u32,
}

impl BenchmarkConfig {
    /// A well-formed configuration carries a valid confidence level.
    pub open spec fn wf(self) -> bool {
        valid_confidence_level_ppm(self.confidence_level_ppm)
    }

    /// Builds a configuration, validating the confidence level: a
    /// level outside the open unit interval is a fatal configuration
    /// error, caught before any benchmark executes.
    pub fn new(
        filter: String,
        benchmem: bool,
        warmup_time_ns: u64,
        measurement_time_ns: u64,
        confidence_level_ppm: u32,
    ) -> (r: Result<BenchmarkConfig, ConfigError>)
        ensures
            r is Ok <==> valid_confidence_level_ppm(confidence_level_ppm),
            r is Ok ==> r->Ok_0.filter@ == filter@ && r->Ok_0.benchmem == benchmem
                && r->Ok_0.warmup_time_ns == warmup_time_ns && r->Ok_0.measurement_time_ns
                == measurement_time_ns && r->Ok_0.confidence_level_ppm == confidence_level_ppm
                && r->Ok_0.wf(),
            r is Err ==> r->Err_0 == ConfigError::InvalidConfidenceLevel,
    {
        if confidence_level_ppm == 0 || confidence_level_ppm >= 1_000_000 {
            Err(ConfigError::InvalidConfidenceLevel)
        } else {
            Ok(
                BenchmarkConfig {
                    filter,
                    benchmem,
                    warmup_time_ns,
                    measurement_time_ns,
                    confidence_level_ppm,
                },
            )
        }
    }
}

impl Default for BenchmarkConfig {
    /// The default configuration: run everything, no memory tracing, a
    /// 2 second warm-up, a 3 second measurement, a 95 % confidence
    /// level.
    fn default() -> (c: BenchmarkConfig)
        ensures
            c.filter@ == Seq::<char>::empty(),
            c.benchmem == false,
            c.warmup_time_ns == 2_000_000_000u64,
            c.measurement_time_ns == 3_000_000_000u64,
            c.confidence_level_ppm == 950_000u32,
            c.wf(),
    {
        BenchmarkConfig {
            filter: String::new(),
            benchmem: false,
            warmup_time_ns: 2_000_000_000,
            measurement_time_ns: 3_000_000_000,
            confidence_level_ppm: 950_000,
        }
    }
}

} // verus!
