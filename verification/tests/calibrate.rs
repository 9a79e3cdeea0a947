use stream_bench::calibrate::ClockCalibration;
use stream_bench::calibrate::DELTA_SENTINEL_US;
use stream_bench::calibrate::collect_samples;
use stream_bench::calibrate::estimate_granularity;
use stream_bench::calibrate::granularity_or_one;
use stream_bench::calibrate::min_clamped_delta;

#[test]
fn calibrator_reports_synthetic_tick_of_five() {
    // A clock that advances by exactly 5 microseconds every reading.
    let mut cal = ClockCalibration::new(10);
    let mut done = false;
    let mut reading: i64 = 0;
    while !done {
        done = cal.offer(reading);
        reading += 5;
    }
    assert_eq!(cal.granularity(), 5);
}

#[test]
fn calibrator_skips_readings_within_a_tick() {
    // A clock read faster than its tick: repeated values are not stored.
    let readings = vec![0, 0, 0, 3, 3, 7, 7, 7, 12];
    let samples = collect_samples(&readings, 4).unwrap();
    assert_eq!(samples, vec![0, 3, 7, 12]);
    assert_eq!(min_clamped_delta(&samples), 3);
}

#[test]
fn estimate_granularity_synthetic_clock() {
    let readings: Vec<i64> = (0..10).map(|k| 5 * k).collect();
    assert_eq!(estimate_granularity(&readings, 10), Some(5));
}

#[test]
fn estimate_granularity_runs_out_of_readings() {
    // The clock never advances: the spin never stores a second sample.
    let readings = vec![9; 50];
    assert_eq!(estimate_granularity(&readings, 2), None);
    // Too few readings for ten samples.
    let short: Vec<i64> = (0..4).map(|k| 5 * k).collect();
    assert_eq!(estimate_granularity(&short, 10), None);
}

#[test]
fn estimate_granularity_is_at_least_one() {
    // Uneven but advancing clock: the smallest stored delta wins.
    let readings = vec![0, 1, 2, 9, 11, 40, 41, 44];
    let g = estimate_granularity(&readings, 5).unwrap();
    assert_eq!(g, 1);
    assert!(g >= 1);
}

#[test]
fn min_clamped_delta_sentinel_and_clamping() {
    // No delta observed: the sentinel.
    assert_eq!(min_clamped_delta(&vec![]), DELTA_SENTINEL_US);
    assert_eq!(min_clamped_delta(&vec![42]), DELTA_SENTINEL_US);
    // A backwards step clamps to zero.
    assert_eq!(min_clamped_delta(&vec![10, 7, 20]), 0);
    assert_eq!(min_clamped_delta(&vec![10, 30, 35]), 5);
}

#[test]
fn single_sample_run_reports_sentinel() {
    let mut cal = ClockCalibration::new(1);
    let done = cal.offer(123);
    assert!(done);
    assert_eq!(cal.granularity(), DELTA_SENTINEL_US);
    assert_eq!(cal.into_samples(), vec![123]);
}

#[test]
fn zero_samples_collect_nothing() {
    assert_eq!(collect_samples(&vec![1, 2, 3], 0), Some(vec![]));
    assert_eq!(collect_samples(&vec![], 0), Some(vec![]));
}

#[test]
fn granularity_fallback_to_one() {
    assert_eq!(granularity_or_one(0), 1);
    assert_eq!(granularity_or_one(-3), 1);
    assert_eq!(granularity_or_one(1), 1);
    assert_eq!(granularity_or_one(7), 7);
}
