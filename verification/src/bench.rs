//! Measurement planning for the calibrator/measurer.
//!
//! The engine decides how many iterations of the candidate function to
//! run, and how often, from a fixed time budget and without prior
//! knowledge of the function's cost. The decisions are made here, on
//! plain integer nanoseconds; the driver that actually runs the
//! candidate function and reads the clock lives outside the verified
//! library and feeds the observed timings back in.

use vstd::prelude::*;
use vstd::string::StringExecFns;

use crate::error::Error;

verus! {

/// `a + b` clamped to the `u64` range.
pub open spec fn sat_add_u64(a: u64, b: u64) -> u64 {
    if a + b <= u64::MAX {
        (a + b) as u64
    } else {
        u64::MAX
    }
}

/// `a - b` clamped below at zero.
pub open spec fn sat_sub_u64(a: u64, b: u64) -> u64 {
    if a >= b {
        (a - b) as u64
    } else {
        0
    }
}

/// Total nanoseconds of a duration given as whole seconds plus a
/// sub-second nanosecond part.
pub fn duration_ns(secs: u64, subsec_nanos: u32) -> (ns: u64)
    requires
        secs * 1_000_000_000 + subsec_nanos <= u64::MAX,
    ensures
        ns == secs * 1_000_000_000 + subsec_nanos,
{
    secs * 1_000_000_000 + subsec_nanos as u64
}

/// Outcome of the probe step: a benchmark function that never invoked
/// the timing primitive is rejected before calibration starts.
pub fn probe_result(timing_called: bool) -> (r: Result<(), Error>)
    ensures
        r is Ok <==> timing_called,
        r is Err ==> r->Err_0 is InvalidBenchmarkFunction,
        r is Err ==> r->Err_0->InvalidBenchmarkFunction_0@
            == "Bencher::iter() method was not called."@,
{
    if timing_called {
        Ok(())
    } else {
        Err(Error::InvalidBenchmarkFunction(String::from_str(
            "Bencher::iter() method was not called.",
        )))
    }
}

/// Running totals of the warm-up loop: how many iterations have run in
/// all, how long they took, and the iteration count of the next round.
pub struct WarmupState {
    pub total_iters: u64,
    pub elapsed_ns: u64,
    pub iterations: u64,
}

/// Totals accumulated by a finished warm-up: the calibration estimate
/// of the per-iteration cost is the ratio `elapsed_ns / total_iters`.
pub struct Calibration {
    pub total_iters: u64,
    pub elapsed_ns: u64,
}

impl Calibration {
    /// Both totals are positive, so ratios of them are well defined.
    pub open spec fn wf(self) -> bool {
        self.total_iters >= 1 && self.elapsed_ns >= 1
    }

    /// Whole nanoseconds that one iteration took, rounded down.
    pub open spec fn ns_per_iter_floor(self) -> int {
        self.elapsed_ns as int / self.total_iters as int
    }
}

impl WarmupState {
    /// The state before the first warm-up round: nothing has run yet
    /// and the first round runs a single iteration.
    pub fn start() -> (s: WarmupState)
        ensures
            s.total_iters == 0,
            s.elapsed_ns == 0,
            s.iterations == 1,
    {
        WarmupState { total_iters: 0, elapsed_ns: 0, iterations: 1 }
    }

    /// Whether another warm-up round is owed: rounds run until the
    /// accumulated time reaches half of the warm-up budget.
    pub fn needs_round(&self, budget_ns: u64) -> (b: bool)
        ensures
            b == (self.elapsed_ns < budget_ns / 2),
    {
        self.elapsed_ns < budget_ns / 2
    }

    /// Accounts for one warm-up round that took `round_elapsed_ns`, and
    /// doubles the iteration count for the next round. The additions
    /// saturate instead of overflowing: the warm-up budget bounds how
    /// far they ever get in practice, and a clamped total only ends the
    /// warm-up earlier.
    pub fn record_round(&mut self, round_elapsed_ns: u64)
        ensures
            final(self).total_iters == sat_add_u64(old(self).total_iters, old(self).iterations),
            final(self).elapsed_ns == sat_add_u64(old(self).elapsed_ns, round_elapsed_ns),
            final(self).iterations == sat_add_u64(old(self).iterations, old(self).iterations),
    {
        self.total_iters = self.total_iters.saturating_add(self.iterations);
        self.elapsed_ns = self.elapsed_ns.saturating_add(round_elapsed_ns);
        self.iterations = self.iterations.saturating_add(self.iterations);
    }

    /// Closes the warm-up loop. The elapsed total is clamped up to one
    /// nanosecond so that per-iteration ratios are never divisions by
    /// zero. At least one round must have run.
    pub fn finish(&self) -> (c: Calibration)
        requires
            self.total_iters >= 1,
        ensures
            c.total_iters == self.total_iters,
            c.elapsed_ns == if self.elapsed_ns >= 1 { self.elapsed_ns } else { 1u64 },
            c.wf(),
    {
        let elapsed: u64 = if self.elapsed_ns >= 1 { self.elapsed_ns } else { 1 };
        Calibration { total_iters: self.total_iters, elapsed_ns: elapsed }
    }
}

impl Calibration {
    /// Iteration count of the one extra stabilization run that spends
    /// the rest of the warm-up budget: the remaining time divided by
    /// the estimated per-iteration cost. The estimate is clamped up to
    /// one nanosecond so that the division is defined even for
    /// functions faster than the clock's resolution.
    pub fn stabilization_iters(&self, budget_ns: u64) -> (k: u64)
        requires
            self.wf(),
        ensures
            k == sat_sub_u64(budget_ns, self.elapsed_ns) as int / (if self.ns_per_iter_floor()
                >= 1 {
                self.ns_per_iter_floor()
            } else {
                1
            }),
    {
        let remaining: u64 = budget_ns.saturating_sub(self.elapsed_ns);
        let mut per_iter: u64 = self.elapsed_ns / self.total_iters;
        if per_iter == 0 {
            per_iter = 1;
        }
        remaining / per_iter
    }
}

/// `1 + 2 + ... + n`, the total iteration cost of a measurement
/// schedule with `n` samples relative to its smallest sample.
pub open spec fn triangle(n: nat) -> nat
    decreases n,
{
    if n == 0 {
        0
    } else {
        n + triangle((n - 1) as nat)
    }
}

/// A schedule of `n` samples runs at least `n` iterations in all.
pub proof fn lemma_triangle_ge(n: nat)
    ensures
        triangle(n) >= n,
    decreases n,
{
    if n > 0 {
        lemma_triangle_ge((n - 1) as nat);
    }
}

/// More samples never cost fewer iterations.
pub proof fn lemma_triangle_monotonic(m: nat, n: nat)
    requires
        m <= n,
    ensures
        triangle(m) <= triangle(n),
    decreases n,
{
    if m < n {
        lemma_triangle_monotonic(m, (n - 1) as nat);
    }
}

/// Smallest per-sample iteration count: enough iterations that one
/// sample lasts at least 100 microseconds, and never fewer than 10.
pub open spec fn spec_min_iters(c: Calibration) -> int {
    let d = 100_000 * c.total_iters as int / c.elapsed_ns as int + 1;
    if d >= 10 {
        d
    } else {
        10
    }
}

/// Total iteration budget of the measurement phase: the measurement
/// time divided by the estimated per-iteration cost.
pub open spec fn spec_max_iters(c: Calibration, measurement_time_ns: u64) -> int {
    measurement_time_ns * c.total_iters as int / c.elapsed_ns as int
}

/// How many times the smallest sample fits into the iteration budget.
pub open spec fn spec_quota(c: Calibration, measurement_time_ns: u64) -> int {
    spec_max_iters(c, measurement_time_ns) / spec_min_iters(c)
}

/// A measurement schedule: `sample_count` samples at `min_iters`,
/// `2 * min_iters`, ..., `sample_count * min_iters` iterations.
pub struct MeasurementPlan {
    pub min_iters: u64,
    pub sample_count: u64,
}

/// Chooses the measurement schedule from the calibration estimate: the
/// sample count is the largest `n` whose triangular iteration total
/// `min_iters * (1 + 2 + ... + n)` stays within the iteration budget,
/// and at least 1.
pub fn plan_measurement(c: &Calibration, measurement_time_ns: u64) -> (p: MeasurementPlan)
    requires
        c.wf(),
        100_000 * c.total_iters as int / c.elapsed_ns as int + 1 <= u64::MAX,
        spec_max_iters(*c, measurement_time_ns) <= u64::MAX,
    ensures
        p.min_iters == spec_min_iters(*c),
        p.min_iters >= 10,
        p.sample_count >= 1,
        triangle(p.sample_count as nat) <= spec_quota(*c, measurement_time_ns)
            || p.sample_count == 1,
        triangle((p.sample_count + 1) as nat) > spec_quota(*c, measurement_time_ns),
        forall|m: u64|
            triangle(m as nat) <= spec_quota(*c, measurement_time_ns) ==> m <= p.sample_count,
        p.min_iters * p.sample_count <= u64::MAX,
{
    let ti: u128 = c.total_iters as u128;
    let e: u128 = c.elapsed_ns as u128;

    let d_raw: u128 = 100_000u128 * ti / e + 1;
    let d: u64 = if d_raw >= 10 { d_raw as u64 } else { 10 };
    assert(d == spec_min_iters(*c));

    assert(measurement_time_ns * c.total_iters <= u64::MAX * u64::MAX) by (nonlinear_arith)
        requires
            measurement_time_ns <= u64::MAX,
            c.total_iters <= u64::MAX,
    ;
    let max_iters: u128 = measurement_time_ns as u128 * ti / e;
    assert(max_iters == spec_max_iters(*c, measurement_time_ns));
    let q: u128 = max_iters / d as u128;
    assert(q == spec_quota(*c, measurement_time_ns));

    let mut n: u64 = 1;
    let mut t: u128 = 3;
    assert(triangle(2nat) == 2 + triangle(1nat));
    assert(triangle(1nat) == 1 + triangle(0nat));
    assert(triangle(0nat) == 0);
    while t <= q
        invariant
            1 <= n,
            n < u64::MAX,
            t == triangle((n + 1) as nat),
            q <= u64::MAX,
            triangle(n as nat) <= q || n == 1,
        decreases q - triangle(n as nat),
    {
        assert(triangle((n + 1) as nat) == (n + 1) + triangle(n as nat));
        proof {
            lemma_triangle_ge((n + 2) as nat);
        }
        assert(triangle((n + 2) as nat) == (n + 2) + triangle((n + 1) as nat));
        n = n + 1;
        t = t + n as u128 + 1;
    }

    proof {
        assert forall|m: u64| triangle(m as nat) <= q implies m <= n by {
            if m > n {
                lemma_triangle_monotonic((n + 1) as nat, m as nat);
            }
        }
        if n >= 2 {
            lemma_triangle_ge(n as nat);
            vstd::arithmetic::div_mod::lemma_fundamental_div_mod(
                max_iters as int,
                d as int,
            );
            vstd::arithmetic::div_mod::lemma_mod_bound(max_iters as int, d as int);
            assert(d * n <= d * q) by (nonlinear_arith)
                requires
                    n <= q,
                    d >= 0,
            ;
        }
    }
    MeasurementPlan { min_iters: d, sample_count: n }
}

/// The measured samples of one benchmark run: `(iterations,
/// elapsed_ns)` pairs, in the order they were collected. Produced at
/// the end of the measurement phase and immutable afterwards.
pub struct BenchmarkResult {
    pub measurements: Vec<(u64, u64)>,
}

/// A valid schedule of iteration counts: at least one count, every
/// count at least one, and the counts strictly increasing. The order
/// matters: it is the regression's independent variable ordering.
pub open spec fn valid_iteration_counts(ks: Seq<u64>) -> bool {
    &&& ks.len() >= 1
    &&& forall|i: int| 0 <= i < ks.len() ==> #[trigger] ks[i] >= 1
    &&& forall|i: int, j: int| 0 <= i < j < ks.len() ==> ks[i] < ks[j]
}

/// A valid measurement series: its iteration counts form a valid
/// schedule.
pub open spec fn valid_series(s: Seq<(u64, u64)>) -> bool {
    valid_iteration_counts(s.map_values(|m: (u64, u64)| m.0))
}

/// Each neighbouring pair of counts increases.
spec fn adjacent_increasing(ks: Seq<u64>) -> bool {
    forall|i: int| 0 <= i < ks.len() - 1 ==> #[trigger] ks[i] < ks[i + 1]
}

proof fn lemma_adjacent_increasing_at(ks: Seq<u64>, i: int, j: int)
    requires
        adjacent_increasing(ks),
        0 <= i < j < ks.len(),
    ensures
        ks[i] < ks[j],
    decreases j - i,
{
    if i + 1 < j {
        lemma_adjacent_increasing_at(ks, i, j - 1);
    }
}

/// A measurement run always yields a usable series: iteration counts
/// of the form `min_iters`, `2 * min_iters`, ..., with a positive
/// `min_iters`, form a valid schedule — at least one count, every
/// count at least `min_iters`, all strictly increasing.
pub proof fn lemma_schedule_is_valid(ks: Seq<u64>, d: u64)
    requires
        d >= 1,
        ks.len() >= 1,
        forall|i: int| 0 <= i < ks.len() ==> ks[i] == (i + 1) * d,
    ensures
        valid_iteration_counts(ks),
        forall|i: int| 0 <= i < ks.len() ==> #[trigger] ks[i] >= d,
{
    assert forall|i: int| 0 <= i < ks.len() implies #[trigger] ks[i] >= d by {
        assert((i + 1) * d >= 1 * d) by (nonlinear_arith)
            requires
                i >= 0,
                d >= 1,
        ;
    }
    assert forall|i: int, j: int| 0 <= i < j < ks.len() implies ks[i] < ks[j] by {
        assert((i + 1) * d < (j + 1) * d) by (nonlinear_arith)
            requires
                0 <= i < j,
                d >= 1,
        ;
    }
}

/// Pairs the schedule's iteration counts with the elapsed times the
/// driver observed for them, checking the series invariant at the
/// boundary: the two lists must have the same positive length and the
/// counts must be positive and strictly increasing. `None` exactly
/// when the inputs break the invariant.
pub fn assemble_result(iters: &Vec<u64>, elapsed_ns: &Vec<u64>) -> (r: Option<BenchmarkResult>)
    ensures
        r is Some <==> iters@.len() == elapsed_ns@.len() && valid_iteration_counts(iters@),
        r is Some ==> {
            &&& r->0.measurements@.len() == iters@.len()
            &&& forall|i: int|
                0 <= i < iters@.len() ==> #[trigger] r->0.measurements@[i] == (
                iters@[i],
                elapsed_ns@[i],
            )
            &&& valid_series(r->0.measurements@)
        },
{
    let n: usize = iters.len();
    if n != elapsed_ns.len() || n == 0 {
        return None;
    }
    let mut measurements: Vec<(u64, u64)> = Vec::new();
    let mut i: usize = 0;
    while i < n
        invariant
            0 <= i <= n,
            n == iters@.len(),
            n == elapsed_ns@.len(),
            measurements@.len() == i,
            forall|j: int|
                0 <= j < i ==> #[trigger] measurements@[j] == (iters@[j], elapsed_ns@[j]),
            forall|j: int| 0 <= j < i ==> #[trigger] iters@[j] >= 1,
            forall|j: int| 0 <= j < i - 1 ==> #[trigger] iters@[j] < iters@[j + 1],
        decreases n - i,
    {
        let k: u64 = iters[i];
        if k < 1 {
            return None;
        }
        if i > 0 && iters[i - 1] >= k {
            assert(!valid_iteration_counts(iters@)) by {
                assert(i - 1 < i < iters@.len());
            }
            return None;
        }
        measurements.push((k, elapsed_ns[i]));
        i = i + 1;
    }
    proof {
        assert forall|p: int, q: int| 0 <= p < q < iters@.len() implies iters@[p] < iters@[q] by {
            lemma_adjacent_increasing_at(iters@, p, q);
        }
        assert(iters@ =~= measurements@.map_values(|m: (u64, u64)| m.0));
    }
    Some(BenchmarkResult { measurements })
}

/// The iteration counts of the schedule: `min_iters`, `2 * min_iters`,
/// ..., `sample_count * min_iters`, in that order. The counts increase
/// strictly, so the regression's independent variable ordering is
/// meaningful, and each is at least `min_iters`.
pub fn measurement_schedule(p: &MeasurementPlan) -> (ks: Vec<u64>)
    requires
        p.sample_count >= 1,
        p.min_iters >= 1,
        p.min_iters * p.sample_count <= u64::MAX,
    ensures
        ks@.len() == p.sample_count,
        forall|i: int| 0 <= i < ks@.len() ==> ks@[i] == (i + 1) * p.min_iters,
        forall|i: int| 0 <= i < ks@.len() ==> p.min_iters <= #[trigger] ks@[i],
{
    let d: u64 = p.min_iters;
    let n: u64 = p.sample_count;
    let mut ks: Vec<u64> = Vec::new();
    let mut i: u64 = 0;
    let mut k: u64 = 0;
    while i < n
        invariant
            0 <= i <= n,
            k == i * d,
            d * n <= u64::MAX,
            d >= 1,
            ks@.len() == i,
            forall|j: int| 0 <= j < i ==> ks@[j] == (j + 1) * d,
        decreases n - i,
    {
        assert((i + 1) * d <= n * d) by (nonlinear_arith)
            requires
                i + 1 <= n,
                d >= 1,
        ;
        assert((i + 1) * d == i * d + d) by (nonlinear_arith);
        k = k + d;
        i = i + 1;
        ks.push(k);
        assert(forall|j: int| 0 <= j < i ==> ks@[j] == (j + 1) * d);
    }
    proof {
        assert forall|j: int| 0 <= j < ks@.len() implies d <= #[trigger] ks@[j] by {
            assert(ks@[j] == (j + 1) * d);
            assert((j + 1) * d >= 1 * d) by (nonlinear_arith)
                requires
                    j >= 0,
                    d >= 1,
            ;
        }
    }
    ks
}

} // verus!
