use stream_bench::kernels::Kernel;
use stream_bench::kernels::StreamArrays;
use stream_bench::kernels::run_seeded_trials;

#[test]
fn kernel_labels_and_factors() {
    assert_eq!(Kernel::Copy.label(), "Copy");
    assert_eq!(Kernel::Scale.label(), "Scale");
    assert_eq!(Kernel::Add.label(), "Add");
    assert_eq!(Kernel::Triad.label(), "Triad");
    assert_eq!(Kernel::Copy.word_factor(), 2);
    assert_eq!(Kernel::Scale.word_factor(), 2);
    assert_eq!(Kernel::Add.word_factor(), 3);
    assert_eq!(Kernel::Triad.word_factor(), 3);
}

#[test]
fn kernel_index_round_trip() {
    for i in 0..4 {
        assert_eq!(Kernel::from_index(i).index(), i);
    }
    assert_eq!(Kernel::Copy.index(), 0);
    assert_eq!(Kernel::Triad.index(), 3);
}

#[test]
fn kernel_bytes_moved_exact() {
    // 8 bytes per element; Copy moves 2 words per index, Add moves 3.
    assert_eq!(Kernel::Copy.bytes_moved(10), 160);
    assert_eq!(Kernel::Scale.bytes_moved(10), 160);
    assert_eq!(Kernel::Add.bytes_moved(10), 240);
    assert_eq!(Kernel::Triad.bytes_moved(10), 240);
    assert_eq!(Kernel::Triad.bytes_moved(10000000), 240000000);
}

#[test]
fn seeded_arrays_hold_seed_triples() {
    let arrs = StreamArrays::new(5);
    assert_eq!(arrs.len(), 5);
    assert_eq!(arrs.a, vec![1; 5]);
    assert_eq!(arrs.b, vec![2; 5]);
    assert_eq!(arrs.c, vec![0; 5]);
}

#[test]
fn warmup_doubles_a_only() {
    let mut arrs = StreamArrays::new(3);
    arrs.double_a();
    assert_eq!(arrs.a, vec![2; 3]);
    assert_eq!(arrs.b, vec![2; 3]);
    assert_eq!(arrs.c, vec![0; 3]);
}

#[test]
fn one_trial_step_by_step() {
    // The concrete scenario: N = 4, scalar = 3, seeds warmed up to
    // A = [2,2,2,2], B = [2,2,2,2], C = [0,0,0,0].
    let mut arrs = StreamArrays::new(4);
    arrs.double_a();
    arrs.copy_step();
    assert_eq!(arrs.c, vec![2; 4], "Copy: C = A");
    arrs.scale_step(3);
    assert_eq!(arrs.b, vec![6; 4], "Scale: B = 3*C");
    arrs.add_step();
    assert_eq!(arrs.c, vec![8; 4], "Add: C = A + B");
    arrs.triad_step(3);
    assert_eq!(arrs.a, vec![30; 4], "Triad: A = B + 3*C");
}

#[test]
fn two_trials_follow_scalar_recurrence() {
    // Second trial from (30, 6, 8): C = 30, B = 90, C = 120, A = 90 + 360.
    let mut arrs = StreamArrays::new(4);
    arrs.double_a();
    arrs.run_cycle(3);
    assert_eq!((arrs.a[0], arrs.b[0], arrs.c[0]), (30, 6, 8));
    arrs.run_cycle(3);
    for i in 0..4 {
        assert_eq!((arrs.a[i], arrs.b[i], arrs.c[i]), (450, 90, 120));
    }
}

#[test]
fn run_trials_equals_repeated_cycles() {
    let mut by_trials = StreamArrays::new(3);
    by_trials.double_a();
    by_trials.run_trials(3, 5);
    let mut by_cycles = StreamArrays::new(3);
    by_cycles.double_a();
    for _ in 0..5 {
        by_cycles.run_cycle(3);
    }
    assert_eq!(by_trials.a, by_cycles.a);
    assert_eq!(by_trials.b, by_cycles.b);
    assert_eq!(by_trials.c, by_cycles.c);
}

#[test]
fn seeded_run_matches_scalar_replay_elementwise() {
    // Array-based and scalar-based computation agree at every element.
    let arrs = run_seeded_trials(6, 3, 2);
    let expected = stream_bench::validate::try_expected_finals(2).unwrap();
    for i in 0..6 {
        assert_eq!(arrs.a[i], expected.0);
        assert_eq!(arrs.b[i], expected.1);
        assert_eq!(arrs.c[i], expected.2);
    }
}

#[test]
fn arbitrary_seeds_follow_recurrence_one_cycle() {
    // One cycle from any seed triple depends only on `a`:
    // (a, b, c) -> (15a, 3a, 4a) with scalar 3.
    let mut arrs = StreamArrays {
        a: vec![7, -1, 0],
        b: vec![100, 200, 300],
        c: vec![-5, 17, 2],
    };
    arrs.run_cycle(3);
    assert_eq!(arrs.a, vec![105, -15, 0]);
    assert_eq!(arrs.b, vec![21, -3, 0]);
    assert_eq!(arrs.c, vec![28, -4, 0]);
}
