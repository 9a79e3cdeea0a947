//! The timing matrix and its reduction to per-kernel bandwidth figures.
//!
//! One cell of the matrix holds the wall-clock duration, in nanoseconds, of
//! one kernel execution in one trial.  The reduction takes, for each kernel,
//! the sum, minimum and maximum of the durations over every trial except the
//! first (the first trial is always discarded as warm-up), and carries the
//! byte traffic of one kernel pass.  With the minimum duration in
//! nanoseconds, the best rate in MB/s (base 1,000,000) is exactly
//! `1000 * bytes_moved / min_ns`, which [`AggregateResult::best_rate_ratio`]
//! returns as an exact ratio.

use crate::kernels::Kernel;
use vstd::prelude::*;

verus! {

/// Sum of the durations of trials `1 .. t` of row `s` (trial 0 discarded).
pub open spec fn sum_over_trials(s: Seq<u64>, t: int) -> int
    decreases t,
{
    if t <= 1 {
        0
    } else {
        sum_over_trials(s, t - 1) + s[t - 1]
    }
}

/// Minimum duration among trials `1 .. t` of row `s`, starting from the
/// largest representable duration.
pub open spec fn min_over_trials(s: Seq<u64>, t: int) -> int
    decreases t,
{
    if t <= 1 {
        u64::MAX as int
    } else {
        let rest = min_over_trials(s, t - 1);
        if s[t - 1] < rest {
            s[t - 1] as int
        } else {
            rest
        }
    }
}

/// Maximum duration among trials `1 .. t` of row `s`, starting from zero.
pub open spec fn max_over_trials(s: Seq<u64>, t: int) -> int
    decreases t,
{
    if t <= 1 {
        0
    } else {
        let rest = max_over_trials(s, t - 1);
        if s[t - 1] > rest {
            s[t - 1] as int
        } else {
            rest
        }
    }
}

/// Sum of all counted trials of a row: every trial but the first.
pub open spec fn sum_skip_first(s: Seq<u64>) -> int {
    sum_over_trials(s, s.len() as int)
}

/// Minimum over all counted trials of a row.
pub open spec fn min_skip_first(s: Seq<u64>) -> int {
    min_over_trials(s, s.len() as int)
}

/// Maximum over all counted trials of a row.
pub open spec fn max_skip_first(s: Seq<u64>) -> int {
    max_over_trials(s, s.len() as int)
}

/// Per-trial durations, in nanoseconds, one row per kernel.
pub struct TimingMatrix {
    copy_times: Vec<u64>,
    scale_times: Vec<u64>,
    add_times: Vec<u64>,
    triad_times: Vec<u64>,
}

impl TimingMatrix {
    /// The row of durations owned by the kernel with index `k`.
    pub closed spec fn row(self, k: int) -> Seq<u64> {
        if k == 0 {
            self.copy_times@
        } else if k == 1 {
            self.scale_times@
        } else if k == 2 {
            self.add_times@
        } else {
            self.triad_times@
        }
    }

    /// Number of trials each row holds.
    pub open spec fn ntimes_spec(self) -> int {
        self.row(0).len() as int
    }

    /// Every kernel's row holds one duration per trial.
    pub open spec fn wf(self) -> bool {
        &&& self.row(1).len() == self.ntimes_spec()
        &&& self.row(2).len() == self.ntimes_spec()
        &&& self.row(3).len() == self.ntimes_spec()
    }

    /// Duration of trial `t` of the kernel with index `k`.
    pub open spec fn duration(self, k: int, t: int) -> u64 {
        self.row(k)[t]
    }

    /// A matrix of `ntimes` trials per kernel, all cells zero.
    pub fn new(ntimes: usize) -> (m: TimingMatrix)
        ensures
            m.wf(),
            m.ntimes_spec() == ntimes,
            forall|k: int, t: int| 0 <= k < 4 && 0 <= t < ntimes ==> #[trigger] m.duration(k, t) == 0,
    {
        TimingMatrix {
            copy_times: zero_row(ntimes),
            scale_times: zero_row(ntimes),
            add_times: zero_row(ntimes),
            triad_times: zero_row(ntimes),
        }
    }

    /// Number of trials each row holds.
    pub fn ntimes(&self) -> (n: usize)
        ensures
            n == self.ntimes_spec(),
    {
        self.copy_times.len()
    }

    /// Store the duration of trial `t` of kernel `k`; no other cell moves.
    pub fn record(&mut self, k: Kernel, t: usize, ns: u64)
        requires
            old(self).wf(),
            t < old(self).ntimes_spec(),
        ensures
            final(self).wf(),
            final(self).ntimes_spec() == old(self).ntimes_spec(),
            final(self).duration(k.index_spec(), t as int) == ns,
            forall|k2: int, t2: int|
                0 <= k2 < 4 && 0 <= t2 < old(self).ntimes_spec() && !(k2 == k.index_spec() && t2
                    == t) ==> #[trigger] final(self).duration(k2, t2) == old(self).duration(k2, t2),
    {
        match k {
            Kernel::Copy => self.copy_times.set(t, ns),
            Kernel::Scale => self.scale_times.set(t, ns),
            Kernel::Add => self.add_times.set(t, ns),
            Kernel::Triad => self.triad_times.set(t, ns),
        }
    }

    /// Read the duration of trial `t` of kernel `k`.
    pub fn get(&self, k: Kernel, t: usize) -> (ns: u64)
        requires
            self.wf(),
            t < self.ntimes_spec(),
        ensures
            ns == self.duration(k.index_spec(), t as int),
    {
        match k {
            Kernel::Copy => self.copy_times[t],
            Kernel::Scale => self.scale_times[t],
            Kernel::Add => self.add_times[t],
            Kernel::Triad => self.triad_times[t],
        }
    }
}

/// Aggregate figures for one kernel over all trials but the first.
#[derive(Clone, Copy)]
pub struct AggregateResult {
    /// The kernel these figures belong to.
    pub kernel: Kernel,
    /// Bytes one pass of the kernel moves over arrays of the measured size.
    pub bytes_moved: u64,
    /// Sum of the counted durations, in nanoseconds.
    pub sum_ns: u128,
    /// Smallest counted duration, in nanoseconds.
    pub min_ns: u64,
    /// Largest counted duration, in nanoseconds.
    pub max_ns: u64,
    /// Total number of trials the row held, the discarded first one included.
    pub trials: usize,
}

impl AggregateResult {
    /// Average counted duration in nanoseconds, the first trial excluded.
    pub fn avg_ns(&self) -> (r: u128)
        requires
            self.trials >= 2,
        ensures
            r == self.sum_ns / ((self.trials - 1) as u128),
    {
        self.sum_ns / ((self.trials - 1) as u128)
    }

    /// Best observed rate as an exact ratio: with durations in nanoseconds,
    /// the rate in MB/s (base 1,000,000 bytes, per the reporting convention)
    /// is exactly `10^-6 * bytes_moved / (min_ns * 10^-9)`, i.e.
    /// `1000 * bytes_moved / min_ns`; the pair `(numerator, denominator)` is
    /// returned unreduced.
    pub fn best_rate_ratio(&self) -> (r: (u64, u64))
        requires
            self.min_ns > 0,
            1000 * self.bytes_moved <= u64::MAX,
        ensures
            r.0 == 1000 * self.bytes_moved,
            r.1 == self.min_ns,
    {
        (1000 * self.bytes_moved, self.min_ns)
    }
}

/// The sum of up to `t - 1` counted durations never exceeds `t - 1` times
/// the largest duration.
proof fn lemma_sum_over_trials_bound(s: Seq<u64>, t: int)
    requires
        1 <= t <= s.len(),
    ensures
        0 <= sum_over_trials(s, t) <= (t - 1) * (u64::MAX as int),
    decreases t,
{
    if t > 1 {
        lemma_sum_over_trials_bound(s, t - 1);
    }
}

/// Reduce one kernel's row: sum, minimum and maximum of the durations of
/// every trial but the first, together with the kernel's byte traffic for
/// arrays of `n` elements.
pub fn reduce_row(matrix: &TimingMatrix, k: Kernel, n: usize) -> (r: AggregateResult)
    requires
        matrix.wf(),
        matrix.ntimes_spec() >= 2,
        3 * crate::BYTES_PER_ELEMENT * n <= u64::MAX,
    ensures
        r.kernel == k,
        r.bytes_moved == k.word_factor_spec() * crate::BYTES_PER_ELEMENT * n,
        r.trials == matrix.ntimes_spec(),
        r.sum_ns == sum_skip_first(matrix.row(k.index_spec())),
        r.min_ns == min_skip_first(matrix.row(k.index_spec())),
        r.max_ns == max_skip_first(matrix.row(k.index_spec())),
{
    let ntimes = matrix.ntimes();
    let factor = k.word_factor();
    assert(factor * crate::BYTES_PER_ELEMENT * n <= 3 * crate::BYTES_PER_ELEMENT * n) by (nonlinear_arith)
        requires
            factor <= 3,
            n >= 0,
    ;
    let bytes_moved: u64 = (factor as u64) * (crate::BYTES_PER_ELEMENT as u64) * (n as u64);
    let mut sum_ns: u128 = 0;
    let mut min_ns: u64 = u64::MAX;
    let mut max_ns: u64 = 0;
    let ghost row = matrix.row(k.index_spec());
    let mut t: usize = 1;
    while t < ntimes
        invariant
            1 <= t <= ntimes,
            matrix.wf(),
            ntimes == matrix.ntimes_spec(),
            row == matrix.row(k.index_spec()),
            row.len() == ntimes,
            sum_ns == sum_over_trials(row, t as int),
            min_ns == min_over_trials(row, t as int),
            max_ns == max_over_trials(row, t as int),
        decreases ntimes - t,
    {
        let d = matrix.get(k, t);
        proof {
            lemma_sum_over_trials_bound(row, t as int);
        }
        sum_ns = sum_ns + (d as u128);
        if d < min_ns {
            min_ns = d;
        }
        if d > max_ns {
            max_ns = d;
        }
        t += 1;
    }
    AggregateResult { kernel: k, bytes_moved, sum_ns, min_ns, max_ns, trials: ntimes }
}

/// Reduce the whole matrix, one result per kernel, in kernel order.
pub fn aggregate(matrix: &TimingMatrix, n: usize) -> (results: Vec<AggregateResult>)
    requires
        matrix.wf(),
        matrix.ntimes_spec() >= 2,
        3 * crate::BYTES_PER_ELEMENT * n <= u64::MAX,
    ensures
        results@.len() == 4,
        forall|k: int|
            0 <= k < 4 ==> (#[trigger] results@[k]).kernel.index_spec() == k,
        forall|k: int|
            0 <= k < 4 ==> (#[trigger] results@[k]).bytes_moved == results@[k].kernel.word_factor_spec()
                * crate::BYTES_PER_ELEMENT * n,
        forall|k: int|
            0 <= k < 4 ==> (#[trigger] results@[k]).trials == matrix.ntimes_spec(),
        forall|k: int|
            0 <= k < 4 ==> (#[trigger] results@[k]).sum_ns == sum_skip_first(matrix.row(k)),
        forall|k: int|
            0 <= k < 4 ==> (#[trigger] results@[k]).min_ns == min_skip_first(matrix.row(k)),
        forall|k: int|
            0 <= k < 4 ==> (#[trigger] results@[k]).max_ns == max_skip_first(matrix.row(k)),
{
    let mut results: Vec<AggregateResult> = Vec::new();
    results.push(reduce_row(matrix, Kernel::Copy, n));
    results.push(reduce_row(matrix, Kernel::Scale, n));
    results.push(reduce_row(matrix, Kernel::Add, n));
    results.push(reduce_row(matrix, Kernel::Triad, n));
    results
}

/// Two rows that agree on every trial but the first reduce alike.
proof fn lemma_row_folds_ignore_first_trial(r1: Seq<u64>, r2: Seq<u64>, t: int)
    requires
        r1.len() == r2.len(),
        t <= r1.len(),
        forall|i: int| 1 <= i < r1.len() ==> r1[i] == r2[i],
    ensures
        sum_over_trials(r1, t) == sum_over_trials(r2, t),
        min_over_trials(r1, t) == min_over_trials(r2, t),
        max_over_trials(r1, t) == max_over_trials(r2, t),
    decreases t,
{
    if t > 1 {
        lemma_row_folds_ignore_first_trial(r1, r2, t - 1);
    }
}

/// The first trial never affects the aggregates: two timing matrices that
/// agree on every trial but each kernel's first have, for every kernel, the
/// same counted sum, minimum and maximum, and with them the same average
/// duration and the same best rate.
pub proof fn lemma_aggregate_ignores_first_trial(m1: TimingMatrix, m2: TimingMatrix)
    requires
        m1.wf(),
        m2.wf(),
        m1.ntimes_spec() == m2.ntimes_spec(),
        forall|k: int, t: int|
            0 <= k < 4 && 1 <= t < m1.ntimes_spec() ==> #[trigger] m1.duration(k, t)
                == #[trigger] m2.duration(k, t),
    ensures
        forall|k: int| 0 <= k < 4 ==> sum_skip_first(#[trigger] m1.row(k)) == sum_skip_first(m2.row(k)),
        forall|k: int| 0 <= k < 4 ==> min_skip_first(#[trigger] m1.row(k)) == min_skip_first(m2.row(k)),
        forall|k: int| 0 <= k < 4 ==> max_skip_first(#[trigger] m1.row(k)) == max_skip_first(m2.row(k)),
{
    assert forall|k: int| 0 <= k < 4 implies sum_skip_first(#[trigger] m1.row(k)) == sum_skip_first(
        m2.row(k),
    ) && min_skip_first(m1.row(k)) == min_skip_first(m2.row(k)) && max_skip_first(m1.row(k))
        == max_skip_first(m2.row(k)) by {
        assert forall|t: int| 1 <= t < m1.row(k).len() implies m1.row(k)[t] == m2.row(k)[t] by {
            assert(m1.duration(k, t) == m2.duration(k, t));
        };
        lemma_row_folds_ignore_first_trial(m1.row(k), m2.row(k), m1.row(k).len() as int);
    };
}

/// A row of `n` zero durations.
fn zero_row(n: usize) -> (v: Vec<u64>)
    ensures
        v@.len() == n,
        forall|t: int| 0 <= t < n ==> #[trigger] v@[t] == 0,
{
    let mut v: Vec<u64> = Vec::new();
    let mut j: usize = 0;
    while j < n
        invariant
            j <= n,
            v@.len() == j,
            forall|t: int| 0 <= t < j ==> #[trigger] v@[t] == 0,
        decreases n - j,
    {
        v.push(0);
        j += 1;
    }
    v
}

} // verus!
