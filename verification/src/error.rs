//! Errors that a single benchmark run can report.

use vstd::prelude::*;

verus! {

/// A benchmark run fails with `InvalidBenchmarkFunction` when the
/// candidate function never invoked the timing primitive during the
/// probe step; the engine then refuses to calibrate or measure it.
#[derive(Clone, Debug, PartialEq, Eq)]
pub enum Error {
    InvalidBenchmarkFunction(String),
}

} // verus!
