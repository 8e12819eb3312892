use smbench::memory::{benchmark, benchmark_is_reliable, AllocEvent, MemoryUsage, TraceAllocator};

#[test]
fn self_check_window_reports_one_allocation_of_twelve_bytes() {
    // Tracing a single allocation sized for three 4-byte elements.
    let mut tracer = TraceAllocator::new();
    let events = vec![AllocEvent::Alloc(12)];
    let usage = benchmark(&mut tracer, &events);
    assert_eq!(
        usage,
        MemoryUsage {
            max_heap_size: 12,
            alloc_counts: 1,
            alloc_size: 12,
        }
    );
    assert!(benchmark_is_reliable(&usage));
    assert!(!tracer.tracing);
}

#[test]
fn any_other_snapshot_is_unreliable() {
    let usage = MemoryUsage {
        max_heap_size: 12,
        alloc_counts: 2,
        alloc_size: 12,
    };
    assert!(!benchmark_is_reliable(&usage));
    let usage = MemoryUsage {
        max_heap_size: 0,
        alloc_counts: 0,
        alloc_size: 0,
    };
    assert!(!benchmark_is_reliable(&usage));
}

#[test]
fn peak_outlives_deallocation() {
    let mut tracer = TraceAllocator::new();
    let events = vec![
        AllocEvent::Alloc(12),
        AllocEvent::Dealloc(12),
        AllocEvent::Alloc(4),
    ];
    let usage = benchmark(&mut tracer, &events);
    assert_eq!(
        usage,
        MemoryUsage {
            max_heap_size: 12,
            alloc_counts: 2,
            alloc_size: 16,
        }
    );
}

#[test]
fn heap_shrinking_below_baseline_clamps_to_zero() {
    // Background deallocation before any allocation: the peak never
    // rises above the baseline, so the delta clamps at zero.
    let mut tracer = TraceAllocator::new();
    let events = vec![AllocEvent::Dealloc(100)];
    let usage = benchmark(&mut tracer, &events);
    assert_eq!(
        usage,
        MemoryUsage {
            max_heap_size: 0,
            alloc_counts: 0,
            alloc_size: 0,
        }
    );
    assert_eq!(tracer.heap_size, -100);
}

#[test]
fn events_outside_a_window_are_not_counted() {
    let mut tracer = TraceAllocator::new();
    tracer.record_alloc(64);
    tracer.record_dealloc(16);
    assert_eq!(tracer.alloc_counts, 0);
    assert_eq!(tracer.alloc_size, 0);
    assert_eq!(tracer.heap_size, 0);
}

#[test]
fn windows_nest_sequentially_with_fresh_totals() {
    let mut tracer = TraceAllocator::new();
    let first = benchmark(&mut tracer, &vec![AllocEvent::Alloc(8)]);
    assert_eq!(first.alloc_counts, 1);
    // The second window starts from the heap the first one left
    // behind, but its totals restart at zero.
    let second = benchmark(&mut tracer, &vec![AllocEvent::Alloc(3)]);
    assert_eq!(
        second,
        MemoryUsage {
            max_heap_size: 3,
            alloc_counts: 1,
            alloc_size: 3,
        }
    );
}
