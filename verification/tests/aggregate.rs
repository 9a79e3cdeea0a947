use stream_bench::aggregate::TimingMatrix;
use stream_bench::aggregate::aggregate;
use stream_bench::aggregate::reduce_row;
use stream_bench::kernels::Kernel;

fn filled_matrix(ntimes: usize, rows: [&[u64]; 4]) -> TimingMatrix {
    let mut m = TimingMatrix::new(ntimes);
    for k in 0..4 {
        for t in 0..ntimes {
            m.record(Kernel::from_index(k), t, rows[k][t]);
        }
    }
    m
}

#[test]
fn matrix_record_and_get() {
    let mut m = TimingMatrix::new(3);
    assert_eq!(m.ntimes(), 3);
    assert_eq!(m.get(Kernel::Scale, 2), 0);
    m.record(Kernel::Scale, 2, 77);
    m.record(Kernel::Triad, 0, 11);
    assert_eq!(m.get(Kernel::Scale, 2), 77);
    assert_eq!(m.get(Kernel::Triad, 0), 11);
    assert_eq!(m.get(Kernel::Copy, 2), 0);
}

#[test]
fn reduce_row_discards_first_trial() {
    let m = filled_matrix(4, [
        &[999999, 10, 20, 30],
        &[1, 40, 40, 40],
        &[0, 5, 50, 5],
        &[123, 9, 8, 7],
    ]);
    let r = reduce_row(&m, Kernel::Copy, 100);
    assert_eq!(r.sum_ns, 60);
    assert_eq!(r.min_ns, 10);
    assert_eq!(r.max_ns, 30);
    assert_eq!(r.trials, 4);
    assert_eq!(r.avg_ns(), 20);
    let r2 = reduce_row(&m, Kernel::Add, 100);
    assert_eq!(r2.min_ns, 5);
    assert_eq!(r2.max_ns, 50);
    assert_eq!(r2.sum_ns, 60);
}

#[test]
fn aggregates_ignore_first_trial_entirely() {
    // Artificially huge first trial durations change nothing.
    let huge = filled_matrix(5, [
        &[u64::MAX, 10, 20, 30, 40],
        &[u64::MAX, 1, 1, 1, 1],
        &[u64::MAX, 7, 3, 9, 5],
        &[u64::MAX, 100, 100, 100, 100],
    ]);
    let tiny = filled_matrix(5, [
        &[0, 10, 20, 30, 40],
        &[0, 1, 1, 1, 1],
        &[0, 7, 3, 9, 5],
        &[0, 100, 100, 100, 100],
    ]);
    let ra = aggregate(&huge, 1000);
    let rb = aggregate(&tiny, 1000);
    assert_eq!(ra.len(), 4);
    for k in 0..4 {
        assert_eq!(ra[k].sum_ns, rb[k].sum_ns);
        assert_eq!(ra[k].min_ns, rb[k].min_ns);
        assert_eq!(ra[k].max_ns, rb[k].max_ns);
        assert_eq!(ra[k].avg_ns(), rb[k].avg_ns());
        assert_eq!(ra[k].best_rate_ratio(), rb[k].best_rate_ratio());
    }
}

#[test]
fn aggregate_kernel_order_and_bytes() {
    let m = filled_matrix(2, [&[0, 4], &[0, 3], &[0, 2], &[0, 1]]);
    let rs = aggregate(&m, 10);
    assert_eq!(rs.len(), 4);
    assert_eq!(rs[0].kernel, Kernel::Copy);
    assert_eq!(rs[1].kernel, Kernel::Scale);
    assert_eq!(rs[2].kernel, Kernel::Add);
    assert_eq!(rs[3].kernel, Kernel::Triad);
    assert_eq!(rs[0].bytes_moved, 160);
    assert_eq!(rs[1].bytes_moved, 160);
    assert_eq!(rs[2].bytes_moved, 240);
    assert_eq!(rs[3].bytes_moved, 240);
    assert_eq!(rs[0].min_ns, 4);
    assert_eq!(rs[3].min_ns, 1);
}

#[test]
fn best_rate_is_exact_ratio() {
    // With durations in nanoseconds, MB/s = 1000 * bytes / min_ns, exactly.
    let m = filled_matrix(3, [&[7, 3, 4], &[7, 3, 4], &[7, 3, 4], &[7, 3, 4]]);
    let rs = aggregate(&m, 1000);
    // Copy: bytes = 2 * 8 * 1000 = 16000; min = 3 ns.
    let (num, den) = rs[0].best_rate_ratio();
    assert_eq!(num, 16000000);
    assert_eq!(den, 3);
    // Triad: bytes = 3 * 8 * 1000 = 24000; rate = 24000000 / 3 MB/s.
    let (num3, den3) = rs[3].best_rate_ratio();
    assert_eq!(num3 / den3, 8000000);
}
