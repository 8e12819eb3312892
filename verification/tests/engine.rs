use smbench::bench::{
    assemble_result, duration_ns, measurement_schedule, plan_measurement, probe_result,
    Calibration, MeasurementPlan, WarmupState,
};
use smbench::config::{BenchmarkConfig, ConfigError};
use smbench::error::Error;

#[test]
fn duration_ns_combines_seconds_and_nanos() {
    assert_eq!(duration_ns(0, 0), 0);
    assert_eq!(duration_ns(1, 500), 1_000_000_500);
    assert_eq!(duration_ns(3, 0), 3_000_000_000);
}

#[test]
fn probe_rejects_function_without_timing_call() {
    let r = probe_result(false);
    assert_eq!(
        r,
        Err(Error::InvalidBenchmarkFunction(
            "Bencher::iter() method was not called.".to_string()
        ))
    );
}

#[test]
fn probe_accepts_function_with_timing_call() {
    assert_eq!(probe_result(true), Ok(()));
}

#[test]
fn warmup_accumulates_and_doubles() {
    let mut s = WarmupState::start();
    assert_eq!(s.total_iters, 0);
    assert_eq!(s.elapsed_ns, 0);
    assert_eq!(s.iterations, 1);
    assert!(s.needs_round(2_000_000_000));

    s.record_round(100);
    assert_eq!(s.total_iters, 1);
    assert_eq!(s.elapsed_ns, 100);
    assert_eq!(s.iterations, 2);

    s.record_round(250);
    assert_eq!(s.total_iters, 3);
    assert_eq!(s.elapsed_ns, 350);
    assert_eq!(s.iterations, 4);

    assert!(!s.needs_round(700));
    assert!(s.needs_round(702));
}

#[test]
fn warmup_finish_clamps_elapsed_to_one() {
    let mut s = WarmupState::start();
    s.record_round(0);
    let c = s.finish();
    assert_eq!(c.total_iters, 1);
    assert_eq!(c.elapsed_ns, 1);
}

#[test]
fn stabilization_spends_the_remaining_budget() {
    let c = Calibration {
        total_iters: 4,
        elapsed_ns: 400,
    };
    assert_eq!(c.stabilization_iters(1_000), 6);
    // Budget already exhausted: nothing left to run.
    assert_eq!(c.stabilization_iters(300), 0);
    // Sub-nanosecond per-iteration cost falls back to one nanosecond.
    let fast = Calibration {
        total_iters: 1_000,
        elapsed_ns: 10,
    };
    assert_eq!(fast.stabilization_iters(110), 100);
}

#[test]
fn plan_picks_largest_triangular_schedule() {
    // 1000 ns per iteration: min_iters = 100_000/1000 + 1 = 101,
    // budget 1_000_000 ns -> 1000 iterations -> quota 9,
    // and 1+2+3 = 6 <= 9 < 10 = 1+2+3+4.
    let c = Calibration {
        total_iters: 1,
        elapsed_ns: 1_000,
    };
    let p = plan_measurement(&c, 1_000_000);
    assert_eq!(p.min_iters, 101);
    assert_eq!(p.sample_count, 3);
}

#[test]
fn plan_clamps_min_iters_to_ten() {
    // 100_000 ns per iteration: the raw minimum would be 2, the floor
    // lifts it to 10; quota = 30_000 / 10 = 3000, and the triangular
    // numbers around it are 2926 = T(76) and 3003 = T(77).
    let c = Calibration {
        total_iters: 1,
        elapsed_ns: 100_000,
    };
    let p = plan_measurement(&c, 3_000_000_000);
    assert_eq!(p.min_iters, 10);
    assert_eq!(p.sample_count, 76);
}

#[test]
fn plan_yields_at_least_one_sample() {
    // A budget too small for even one sample still schedules one.
    let c = Calibration {
        total_iters: 1,
        elapsed_ns: 1_000,
    };
    let p = plan_measurement(&c, 1_000);
    assert_eq!(p.min_iters, 101);
    assert_eq!(p.sample_count, 1);
}

#[test]
fn schedule_is_arithmetic_and_increasing() {
    let p = MeasurementPlan {
        min_iters: 10,
        sample_count: 5,
    };
    let ks = measurement_schedule(&p);
    assert_eq!(ks, vec![10, 20, 30, 40, 50]);
}

#[test]
fn assemble_pairs_schedule_with_timings() {
    let iters = vec![10u64, 20, 30];
    let elapsed = vec![1_000u64, 2_100, 2_900];
    let r = assemble_result(&iters, &elapsed).expect("valid series");
    assert_eq!(r.measurements, vec![(10, 1_000), (20, 2_100), (30, 2_900)]);
}

#[test]
fn assemble_rejects_invalid_series() {
    // Mismatched lengths.
    assert!(assemble_result(&vec![10u64], &vec![]).is_none());
    // No samples at all.
    assert!(assemble_result(&vec![], &vec![]).is_none());
    // A zero iteration count.
    assert!(assemble_result(&vec![0u64], &vec![5u64]).is_none());
    // Counts that fail to increase.
    assert!(assemble_result(&vec![10u64, 10], &vec![1u64, 2]).is_none());
    assert!(assemble_result(&vec![20u64, 10], &vec![1u64, 2]).is_none());
}

#[test]
fn confidence_level_outside_unit_interval_is_rejected() {
    // 1.5 expressed in parts per million.
    let r = BenchmarkConfig::new(String::new(), false, 0, 0, 1_500_000);
    assert_eq!(r.unwrap_err(), ConfigError::InvalidConfidenceLevel);
    // The bounds themselves are excluded.
    assert!(BenchmarkConfig::new(String::new(), false, 0, 0, 0).is_err());
    assert!(BenchmarkConfig::new(String::new(), false, 0, 0, 1_000_000).is_err());
}

#[test]
fn valid_configuration_is_kept_as_given() {
    let c = BenchmarkConfig::new(
        "fib".to_string(),
        true,
        2_000_000_000,
        3_000_000_000,
        950_000,
    )
    .expect("valid configuration");
    assert_eq!(c.filter, "fib");
    assert!(c.benchmem);
    assert_eq!(c.warmup_time_ns, 2_000_000_000);
    assert_eq!(c.measurement_time_ns, 3_000_000_000);
    assert_eq!(c.confidence_level_ppm, 950_000);
}

#[test]
fn default_configuration() {
    let c = BenchmarkConfig::default();
    assert_eq!(c.filter, "");
    assert!(!c.benchmem);
    assert_eq!(c.warmup_time_ns, 2_000_000_000);
    assert_eq!(c.measurement_time_ns, 3_000_000_000);
    assert_eq!(c.confidence_level_ppm, 950_000);
}

/// Drives the whole planning pipeline the way the measurement shell
/// does, with real clock readings around a trivial loop body: the run
/// must produce at least one sample, every sample at least 10
/// iterations, and positive elapsed times.
#[test]
fn planning_pipeline_end_to_end() {
    let warmup_ns: u64 = 100_000_000;
    let measurement_ns: u64 = 100_000_000;

    assert!(probe_result(true).is_ok());

    let mut state = WarmupState::start();
    while state.needs_round(warmup_ns) {
        let k = state.iterations;
        let start = std::time::Instant::now();
        let mut acc: u64 = 0;
        for i in 0..k {
            acc = std::hint::black_box(acc.wrapping_add(i));
        }
        let d = start.elapsed();
        state.record_round(duration_ns(d.as_secs(), d.subsec_nanos()));
    }
    let calibration = state.finish();

    let plan = plan_measurement(&calibration, measurement_ns);
    assert!(plan.min_iters >= 10);
    assert!(plan.sample_count >= 1);

    let ks = measurement_schedule(&plan);
    let mut elapsed = Vec::new();
    for &k in &ks {
        let start = std::time::Instant::now();
        let mut acc: u64 = 0;
        for i in 0..k {
            acc = std::hint::black_box(acc.wrapping_add(i));
        }
        let d = start.elapsed();
        elapsed.push(duration_ns(d.as_secs(), d.subsec_nanos()));
    }

    let result = assemble_result(&ks, &elapsed).expect("schedule forms a valid series");
    assert!(result.measurements.len() >= 1);
    for &(iters, elapsed_ns) in &result.measurements {
        assert!(iters >= 10);
        assert!(elapsed_ns > 0);
    }
}
