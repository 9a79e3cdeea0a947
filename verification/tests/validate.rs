use stream_bench::kernels::StreamArrays;
use stream_bench::kernels::run_seeded_trials;
use stream_bench::validate::check_array;
use stream_bench::validate::cycle_values;
use stream_bench::validate::expected_finals;
use stream_bench::validate::scalar_trace;
use stream_bench::validate::trace_fits_exec;
use stream_bench::validate::try_expected_finals;
use stream_bench::validate::validate;

#[test]
fn scalar_replay_concrete_values() {
    assert_eq!(cycle_values((2, 2, 0), 3), (30, 6, 8));
    assert_eq!(cycle_values((30, 6, 8), 3), (450, 90, 120));
    assert_eq!(scalar_trace((2, 2, 0), 3, 0), (2, 2, 0));
    assert_eq!(scalar_trace((2, 2, 0), 3, 2), (450, 90, 120));
}

#[test]
fn expected_finals_replays_seeds_and_warmup() {
    assert_eq!(expected_finals(0), (2, 2, 0));
    assert_eq!(expected_finals(1), (30, 6, 8));
    assert_eq!(expected_finals(2), (450, 90, 120));
    // Ten trials, the default: a = 2 * 15^10, b = 3 * 2 * 15^9, c = 4 * 2 * 15^9.
    assert_eq!(expected_finals(10), (1153300781250, 230660156250, 307546875000));
}

#[test]
fn expected_finals_range_check() {
    assert_eq!(try_expected_finals(2), Some((450, 90, 120)));
    assert!(try_expected_finals(15).is_some());
    // The sixteenth cycle overflows a 64-bit element.
    assert_eq!(try_expected_finals(16), None);
    assert_eq!(try_expected_finals(100), None);
    assert!(trace_fits_exec((2, 2, 0), 3, 15));
    assert!(!trace_fits_exec((2, 2, 0), 3, 16));
}

#[test]
fn clean_run_validates() {
    let arrs = run_seeded_trials(8, 3, 10);
    let report = validate(&arrs, 10).unwrap();
    assert!(report.passed);
    assert!(!report.a.failed && !report.b.failed && !report.c.failed);
    assert_eq!(report.a.expected, 1153300781250);
    assert_eq!(report.b.expected, 230660156250);
    assert_eq!(report.c.expected, 307546875000);
    assert_eq!(report.a.sum_abs_err, 0);
    assert_eq!(report.b.sum_abs_err, 0);
    assert_eq!(report.c.sum_abs_err, 0);
    assert_eq!(report.a.error_count, 0);
    assert_eq!(report.a.len, 8);
}

#[test]
fn corrupted_element_is_caught_and_counted() {
    // One element of `a` off by 1 out of 4: average relative error is
    // (1/4) / 450 > 1e-13, so the check trips, and the per-element count
    // identifies exactly the corrupted element.
    let mut arrs = run_seeded_trials(4, 3, 2);
    arrs.a[2] += 1;
    let report = validate(&arrs, 2).unwrap();
    assert!(!report.passed);
    assert!(report.a.failed);
    assert_eq!(report.a.sum_abs_err, 1);
    assert_eq!(report.a.error_count, 1);
    assert!(!report.b.failed && !report.c.failed);
}

#[test]
fn corruption_below_average_tolerance_passes() {
    // A deviation so small relative to the expected value that the
    // average relative error stays within 1e-13: not caught.
    let e: i64 = 9007199254740992;
    let xs = vec![e, e - 1000, e, e];
    // sum_abs_err = 1000; 1000 * 10^13 <= e * 4, so the average check holds.
    let r = check_array(&xs, e);
    assert!(!r.failed);
    assert_eq!(r.sum_abs_err, 1000);
    assert_eq!(r.error_count, 0);
}

#[test]
fn two_deviating_elements_both_counted() {
    let xs = vec![450, 451, 449, 450];
    let r = check_array(&xs, 450);
    assert!(r.failed);
    assert_eq!(r.sum_abs_err, 2);
    assert_eq!(r.error_count, 2);
    assert_eq!(r.len, 4);
    assert_eq!(r.expected, 450);
}

#[test]
fn zero_trials_not_validatable() {
    // With no trials the expected value of `c` is still 0; a relative
    // check against it is undefined, so validation refuses the run.
    let arrs = run_seeded_trials(4, 3, 0);
    assert_eq!(arrs.c, vec![0; 4]);
    assert!(validate(&arrs, 0).is_none());
}

#[test]
fn validation_rejects_inapplicable_runs() {
    // Mismatched array lengths.
    let ragged = StreamArrays { a: vec![1, 2], b: vec![1], c: vec![1, 2] };
    assert!(validate(&ragged, 2).is_none());
    // Empty arrays.
    let empty = StreamArrays { a: vec![], b: vec![], c: vec![] };
    assert!(validate(&empty, 2).is_none());
    // A trial count whose scalar replay overflows the element range.
    let arrs = run_seeded_trials(4, 3, 2);
    assert!(validate(&arrs, 16).is_none());
}
