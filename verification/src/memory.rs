//! Accounting model of the allocation tracer.
//!
//! The engine measures heap growth and allocation counts during a
//! scoped execution window. The process-wide allocator hook itself
//! cannot be verified, so the counter block it updates is modelled
//! here as an explicit value: `TraceAllocator` holds the enable flag
//! and the four accumulators, and each method performs exactly the
//! update the instrumented allocator performs on its atomics. The
//! unverified hook mirrors these transitions; everything downstream of
//! the raw events is proved.

use vstd::prelude::*;

verus! {

/// Heap usage measured across one tracing window: the peak heap growth
/// over the window's baseline, and how many allocations of how many
/// bytes the window saw.
#[derive(Clone, Debug, PartialEq, Eq, Structural)]
pub struct MemoryUsage {
    pub max_heap_size: usize,
    pub alloc_counts: usize,
    pub alloc_size: usize,
}

/// One heap event observed while a tracing window is open.
#[derive(Clone, Copy, Debug, PartialEq, Eq, Structural)]
pub enum AllocEvent {
    Alloc(usize),
    Dealloc(usize),
}

/// The tracer's counter block: an enable flag, the signed current heap
/// size, the peak heap size, and the allocation count and byte totals.
#[derive(Clone, Debug, PartialEq, Eq, Structural)]
pub struct TraceAllocator {
    pub tracing: bool,
    pub heap_size: i64,
    pub max_heap_size: i64,
    pub alloc_counts: usize,
    pub alloc_size: usize,
}

/// `a + b` clamped to the `i64` range.
pub open spec fn sat_add_i64(a: i64, b: i64) -> i64 {
    if a + b > i64::MAX {
        i64::MAX
    } else if a + b < i64::MIN {
        i64::MIN
    } else {
        (a + b) as i64
    }
}

/// `a - b` clamped to the `i64` range.
pub open spec fn sat_sub_i64(a: i64, b: i64) -> i64 {
    if a - b > i64::MAX {
        i64::MAX
    } else if a - b < i64::MIN {
        i64::MIN
    } else {
        (a - b) as i64
    }
}

/// `a + b` clamped to the `usize` range.
pub open spec fn sat_add_usize(a: usize, b: usize) -> usize {
    if a + b <= usize::MAX {
        (a + b) as usize
    } else {
        usize::MAX
    }
}

/// An allocation size as a signed heap delta, clamped to the `i64`
/// range.
pub open spec fn heap_delta(size: usize) -> i64 {
    if size <= i64::MAX {
        size as i64
    } else {
        i64::MAX
    }
}

/// The counter update for one allocation of `size` bytes: outside a
/// window nothing changes; inside, the count and byte totals grow, the
/// heap size grows, and the peak is raised to the new heap size if it
/// exceeds the old peak. The additions saturate instead of
/// overflowing.
pub open spec fn spec_alloc(s: TraceAllocator, size: usize) -> TraceAllocator {
    if !s.tracing {
        s
    } else {
        let heap = sat_add_i64(s.heap_size, heap_delta(size));
        TraceAllocator {
            tracing: true,
            heap_size: heap,
            max_heap_size: if heap > s.max_heap_size {
                heap
            } else {
                s.max_heap_size
            },
            alloc_counts: sat_add_usize(s.alloc_counts, 1),
            alloc_size: sat_add_usize(s.alloc_size, size),
        }
    }
}

/// The counter update for one deallocation of `size` bytes: outside a
/// window nothing changes; inside, only the current heap size shrinks.
pub open spec fn spec_dealloc(s: TraceAllocator, size: usize) -> TraceAllocator {
    if !s.tracing {
        s
    } else {
        TraceAllocator { heap_size: sat_sub_i64(s.heap_size, heap_delta(size)), ..s }
    }
}

/// Opening a window: the baseline is the current heap size, the peak
/// is reset to it, the allocation totals restart at zero, and tracing
/// is enabled.
pub open spec fn spec_begin(s: TraceAllocator) -> TraceAllocator {
    TraceAllocator {
        tracing: true,
        heap_size: s.heap_size,
        max_heap_size: s.heap_size,
        alloc_counts: 0,
        alloc_size: 0,
    }
}

/// Closing a window only clears the enable flag.
pub open spec fn spec_end(s: TraceAllocator) -> TraceAllocator {
    TraceAllocator { tracing: false, ..s }
}

/// One event applied to the counters.
pub open spec fn spec_apply(s: TraceAllocator, e: AllocEvent) -> TraceAllocator {
    match e {
        AllocEvent::Alloc(size) => spec_alloc(s, size),
        AllocEvent::Dealloc(size) => spec_dealloc(s, size),
    }
}

/// A whole event sequence applied to the counters, in order.
pub open spec fn spec_run(s: TraceAllocator, events: Seq<AllocEvent>) -> TraceAllocator
    decreases events.len(),
{
    if events.len() == 0 {
        s
    } else {
        spec_run(spec_apply(s, events[0]), events.drop_first())
    }
}

pub proof fn lemma_run_snoc(s: TraceAllocator, events: Seq<AllocEvent>, e: AllocEvent)
    ensures
        spec_run(s, events.push(e)) == spec_apply(spec_run(s, events), e),
    decreases events.len(),
{
    reveal_with_fuel(spec_run, 3);
    assert(events.push(e)[0 as int] == if events.len() == 0 { e } else { events[0] });
    if events.len() == 0 {
        assert(events.push(e).drop_first() =~= Seq::<AllocEvent>::empty());
    } else {
        assert(events.push(e).drop_first() =~= events.drop_first().push(e));
        lemma_run_snoc(spec_apply(s, events[0]), events.drop_first(), e);
    }
}

/// The snapshot taken when a window closes: the peak heap growth over
/// the baseline, clamped below at zero (background deallocation can
/// push the heap under the baseline) and above at the `usize` range,
/// together with the window's allocation totals.
pub open spec fn spec_usage(s: TraceAllocator, baseline: i64) -> MemoryUsage {
    MemoryUsage {
        max_heap_size: if s.max_heap_size - baseline <= 0 {
            0
        } else if s.max_heap_size - baseline > usize::MAX {
            usize::MAX
        } else {
            (s.max_heap_size - baseline) as usize
        },
        alloc_counts: s.alloc_counts,
        alloc_size: s.alloc_size,
    }
}

impl TraceAllocator {
    /// The counter block at process start: tracing disabled, all
    /// accumulators zero.
    pub fn new() -> (s: TraceAllocator)
        ensures
            s == (TraceAllocator {
                tracing: false,
                heap_size: 0,
                max_heap_size: 0,
                alloc_counts: 0,
                alloc_size: 0,
            }),
    {
        TraceAllocator {
            tracing: false,
            heap_size: 0,
            max_heap_size: 0,
            alloc_counts: 0,
            alloc_size: 0,
        }
    }

    /// Accounts for one allocation of `size` bytes.
    pub fn record_alloc(&mut self, size: usize)
        ensures
            *final(self) == spec_alloc(*old(self), size),
    {
        if self.tracing {
            self.alloc_counts = self.alloc_counts.saturating_add(1);
            self.alloc_size = self.alloc_size.saturating_add(size);
            let delta: i64 = if size as u128 <= i64::MAX as u128 {
                size as i64
            } else {
                i64::MAX
            };
            if self.heap_size > i64::MAX - delta {
                self.heap_size = i64::MAX;
            } else {
                self.heap_size = self.heap_size + delta;
            }
            if self.heap_size > self.max_heap_size {
                self.max_heap_size = self.heap_size;
            }
        }
    }

    /// Accounts for one deallocation of `size` bytes.
    pub fn record_dealloc(&mut self, size: usize)
        ensures
            *final(self) == spec_dealloc(*old(self), size),
    {
        if self.tracing {
            let delta: i64 = if size as u128 <= i64::MAX as u128 {
                size as i64
            } else {
                i64::MAX
            };
            if self.heap_size < i64::MIN + delta {
                self.heap_size = i64::MIN;
            } else {
                self.heap_size = self.heap_size - delta;
            }
        }
    }

    /// Applies one recorded heap event.
    pub fn apply(&mut self, e: &AllocEvent)
        ensures
            *final(self) == spec_apply(*old(self), *e),
    {
        match e {
            AllocEvent::Alloc(size) => self.record_alloc(*size),
            AllocEvent::Dealloc(size) => self.record_dealloc(*size),
        }
    }

    /// Opens a tracing window and hands back its baseline.
    pub fn begin_trace(&mut self) -> (baseline: i64)
        ensures
            *final(self) == spec_begin(*old(self)),
            baseline == old(self).heap_size,
    {
        let baseline: i64 = self.heap_size;
        self.tracing = true;
        self.max_heap_size = baseline;
        self.alloc_counts = 0;
        self.alloc_size = 0;
        baseline
    }

    /// The snapshot of the current counters relative to `baseline`.
    pub fn usage_since(&self, baseline: i64) -> (u: MemoryUsage)
        ensures
            u == spec_usage(*self, baseline),
    {
        let diff: i128 = self.max_heap_size as i128 - baseline as i128;
        let max_heap_size: usize = if diff <= 0 {
            0
        } else if diff > usize::MAX as i128 {
            usize::MAX
        } else {
            diff as usize
        };
        MemoryUsage { max_heap_size, alloc_counts: self.alloc_counts, alloc_size: self.alloc_size }
    }

    /// Closes the tracing window.
    pub fn end_trace(&mut self)
        ensures
            *final(self) == spec_end(*old(self)),
    {
        self.tracing = false;
    }
}

/// One whole tracing window over a recorded event sequence: open a
/// window, account for every event in order, snapshot against the
/// baseline, and close the window.
pub fn benchmark(tracer: &mut TraceAllocator, events: &Vec<AllocEvent>) -> (u: MemoryUsage)
    ensures
        u == spec_usage(spec_run(spec_begin(*old(tracer)), events@), old(tracer).heap_size),
        *final(tracer) == spec_end(spec_run(spec_begin(*old(tracer)), events@)),
{
    let baseline: i64 = tracer.begin_trace();
    let ghost started: TraceAllocator = *tracer;
    let mut i: usize = 0;
    while i < events.len()
        invariant
            0 <= i <= events@.len(),
            *tracer == spec_run(started, events@.take(i as int)),
        decreases events@.len() - i,
    {
        tracer.apply(&events[i]);
        proof {
            assert(events@.take(i + 1) =~= events@.take(i as int).push(events@[i as int]));
            lemma_run_snoc(started, events@.take(i as int), events@[i as int]);
        }
        i = i + 1;
    }
    proof {
        assert(events@.take(events@.len() as int) =~= events@);
    }
    let u: MemoryUsage = tracer.usage_since(baseline);
    tracer.end_trace();
    u
}

/// The snapshot that the platform self-check must report: exactly one
/// allocation of exactly 12 bytes, all of it still held at the peak.
pub open spec fn spec_reliable_usage() -> MemoryUsage {
    MemoryUsage { max_heap_size: 12, alloc_counts: 1, alloc_size: 12 }
}

/// Whether an observed self-check snapshot shows that the platform
/// allocator was instrumented reliably. The probe allocates space for
/// three 4-byte elements once, so a reliable tracer reports exactly
/// one allocation of exactly 12 bytes; anything else means memory
/// tracing must be reported as unavailable.
pub fn benchmark_is_reliable(observed: &MemoryUsage) -> (r: bool)
    ensures
        r == (*observed == spec_reliable_usage()),
{
    observed.max_heap_size == 12 && observed.alloc_counts == 1 && observed.alloc_size == 12
}

/// The self-check law: whatever the counters held before, a tracing
/// window that sees exactly one allocation of 12 bytes snapshots as
/// one allocation of 12 bytes with a peak heap growth of 12 bytes.
pub proof fn lemma_self_check_window(s: TraceAllocator)
    requires
        s.heap_size + 12 <= i64::MAX,
    ensures
        spec_usage(
            spec_run(spec_begin(s), seq![AllocEvent::Alloc(12)]),
            s.heap_size,
        ) == spec_reliable_usage(),
{
    reveal_with_fuel(spec_run, 3);
    let events = seq![AllocEvent::Alloc(12)];
    assert(events[0 as int] == AllocEvent::Alloc(12));
    assert(events.drop_first() =~= Seq::<AllocEvent>::empty());
    assert(spec_run(spec_begin(s), events) == spec_alloc(spec_begin(s), 12));
}

} // verus!
