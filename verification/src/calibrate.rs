//! Clock-granularity calibration.
//!
//! The calibrator is fed successive clock readings (microsecond timestamps)
//! by whoever owns the clock.  It stores the first reading, then stores each
//! later reading only once it is at least one microsecond past the last
//! stored sample.  The granularity estimate is the minimum clamped delta
//! between consecutive stored samples, or a large sentinel when fewer than
//! two samples exist.  Calibration is best-effort diagnostics: it never
//! fails, and a sub-microsecond estimate falls back to 1 downstream.

use vstd::prelude::*;

verus! {

/// Sentinel estimate (one second, in microseconds) reported when no delta
/// was observed.
pub const DELTA_SENTINEL_US: i64 = 1000000;

/// The calibrator's transition on one clock reading: the first reading is
/// stored as the baseline sample; a later reading is stored only once it is
/// at least one microsecond past the last stored sample.
pub open spec fn feed_spec(samples: Seq<i64>, reading: i64) -> Seq<i64> {
    if samples.len() == 0 {
        seq![reading]
    } else if reading - samples.last() >= 1 {
        samples.push(reading)
    } else {
        samples
    }
}

/// Samples stored after offering `readings[i..]` one by one to a calibrator
/// already holding `samples`, stopping once `m` samples are stored; `None`
/// when the readings run out first.
pub open spec fn collect_rec(readings: Seq<i64>, i: int, samples: Seq<i64>, m: nat) -> Option<
    Seq<i64>,
>
    decreases readings.len() - i,
{
    if samples.len() >= m {
        Some(samples)
    } else if i < 0 || i >= readings.len() {
        None
    } else {
        collect_rec(readings, i + 1, feed_spec(samples, readings[i]), m)
    }
}

/// Samples stored after offering all of `readings` in order to a fresh
/// calibrator that wants `m` samples.
pub open spec fn collect_spec(readings: Seq<i64>, m: nat) -> Option<Seq<i64>> {
    collect_rec(readings, 0, Seq::empty(), m)
}

/// Delta between samples `i - 1` and `i`, clamped to be non-negative.
pub open spec fn clamped_delta(s: Seq<i64>, i: int) -> int {
    if s[i] - s[i - 1] >= 0 {
        s[i] - s[i - 1]
    } else {
        0
    }
}

/// Minimum of the sentinel and the clamped deltas among the first `n`
/// samples.
pub open spec fn min_delta_upto(s: Seq<i64>, n: int) -> int
    decreases n,
{
    if n <= 1 {
        DELTA_SENTINEL_US as int
    } else {
        let rest = min_delta_upto(s, n - 1);
        let d = clamped_delta(s, n - 1);
        if d < rest {
            d
        } else {
            rest
        }
    }
}

/// Minimum clamped delta over a whole sample sequence.
pub open spec fn min_delta_spec(s: Seq<i64>) -> int {
    min_delta_upto(s, s.len() as int)
}

/// A clock whose stored samples each advanced by at least one microsecond
/// over the previous one always yields a granularity estimate of at least 1:
/// every clamped delta is at least 1, and so is the sentinel.
pub proof fn lemma_spaced_samples_give_positive_granularity(s: Seq<i64>)
    requires
        forall|i: int| 1 <= i < s.len() ==> #[trigger] s[i] >= s[i - 1] + 1,
    ensures
        min_delta_spec(s) >= 1,
{
    lemma_spaced_min_delta_upto(s, s.len() as int);
}

proof fn lemma_spaced_min_delta_upto(s: Seq<i64>, n: int)
    requires
        n <= s.len(),
        forall|i: int| 1 <= i < s.len() ==> #[trigger] s[i] >= s[i - 1] + 1,
    ensures
        min_delta_upto(s, n) >= 1,
    decreases n,
{
    if n > 1 {
        lemma_spaced_min_delta_upto(s, n - 1);
        assert(s[n - 1] >= s[n - 2] + 1);
    }
}

/// Minimum clamped delta between consecutive samples, or the sentinel when
/// fewer than two samples exist.
pub fn min_clamped_delta(samples: &Vec<i64>) -> (g: i64)
    requires
        forall|i: int| 0 <= i < samples@.len() ==> #[trigger] samples@[i] >= 0,
    ensures
        g == min_delta_spec(samples@),
{
    let n = samples.len();
    let mut g: i64 = DELTA_SENTINEL_US;
    let mut j: usize = 1;
    while j < n
        invariant
            1 <= j,
            j <= n || j == 1,
            forall|i: int| 0 <= i < samples@.len() ==> #[trigger] samples@[i] >= 0,
            samples@.len() == n,
            g == min_delta_upto(samples@, j as int),
        decreases n - j,
    {
        let cur = samples[j];
        let prev = samples[j - 1];
        let delta = cur - prev;
        let clamped = if delta < 0 {
            0
        } else {
            delta
        };
        if clamped < g {
            g = clamped;
        }
        j += 1;
    }
    proof {
        if n == 0 {
            assert(min_delta_upto(samples@, 0) == min_delta_upto(samples@, 1));
        }
    }
    g
}

/// State of one calibration run: the samples stored so far and how many are
/// wanted in all.
pub struct ClockCalibration {
    samples: Vec<i64>,
    target: usize,
}

impl ClockCalibration {
    /// The samples stored so far.
    pub closed spec fn samples_spec(self) -> Seq<i64> {
        self.samples@
    }

    /// How many samples this run wants.
    pub closed spec fn target_spec(self) -> nat {
        self.target as nat
    }

    /// Samples never exceed the target, are non-negative timestamps, and
    /// consecutive samples are at least one microsecond apart.
    pub closed spec fn wf(self) -> bool {
        &&& self.samples@.len() <= self.target
        &&& forall|i: int| 0 <= i < self.samples@.len() ==> #[trigger] self.samples@[i] >= 0
        &&& forall|i: int|
            1 <= i < self.samples@.len() ==> #[trigger] self.samples@[i] >= self.samples@[i - 1] + 1
    }

    /// All wanted samples have been stored.
    pub open spec fn complete(self) -> bool {
        self.samples_spec().len() == self.target_spec()
    }

    /// A fresh run that wants `target` samples.
    pub fn new(target: usize) -> (r: ClockCalibration)
        ensures
            r.wf(),
            r.samples_spec() == Seq::<i64>::empty(),
            r.target_spec() == target,
    {
        ClockCalibration { samples: Vec::new(), target }
    }

    /// Offer one clock reading; reports whether the run is now complete.
    pub fn offer(&mut self, reading: i64) -> (done: bool)
        requires
            old(self).wf(),
            !old(self).complete(),
            reading >= 0,
        ensures
            final(self).wf(),
            final(self).target_spec() == old(self).target_spec(),
            final(self).samples_spec() == feed_spec(old(self).samples_spec(), reading),
            done == final(self).complete(),
    {
        if self.samples.len() == 0 {
            self.samples.push(reading);
        } else {
            let last = self.samples[self.samples.len() - 1];
            if reading - last >= 1 {
                self.samples.push(reading);
            }
        }
        self.samples.len() == self.target
    }

    /// Whether all wanted samples have been stored.
    pub fn is_complete(&self) -> (r: bool)
        ensures
            r == self.complete(),
    {
        self.samples.len() == self.target
    }

    /// The granularity estimate over the stored samples.  By construction
    /// every stored delta is at least one microsecond, so the estimate is
    /// always at least 1.
    pub fn granularity(&self) -> (g: i64)
        requires
            self.wf(),
        ensures
            g == min_delta_spec(self.samples_spec()),
            g >= 1,
    {
        proof {
            lemma_spaced_samples_give_positive_granularity(self.samples@);
        }
        min_clamped_delta(&self.samples)
    }

    /// Give the stored samples back to the caller.
    pub fn into_samples(self) -> (v: Vec<i64>)
        ensures
            v@ == self.samples_spec(),
    {
        self.samples
    }
}

/// Replay a whole calibration run over a recorded sequence of microsecond
/// clock readings: collect `m` samples, then return them; `None` when the
/// readings run out before `m` samples are stored.
pub fn collect_samples(readings: &Vec<i64>, m: usize) -> (r: Option<Vec<i64>>)
    requires
        forall|i: int| 0 <= i < readings@.len() ==> #[trigger] readings@[i] >= 0,
    ensures
        match (r, collect_spec(readings@, m as nat)) {
            (Some(v), Some(s)) => v@ == s && v@.len() == m && (forall|i: int|
                0 <= i < v@.len() ==> #[trigger] v@[i] >= 0) && (forall|i: int|
                1 <= i < v@.len() ==> #[trigger] v@[i] >= v@[i - 1] + 1),
            (None, None) => true,
            _ => false,
        },
{
    let mut cal = ClockCalibration::new(m);
    if m == 0 {
        let empty: Vec<i64> = Vec::new();
        return Some(empty);
    }
    let n = readings.len();
    let mut i: usize = 0;
    while i < n
        invariant
            i <= n,
            readings@.len() == n,
            m >= 1,
            forall|j: int| 0 <= j < readings@.len() ==> #[trigger] readings@[j] >= 0,
            cal.wf(),
            cal.target_spec() == m,
            !cal.complete(),
            collect_rec(readings@, i as int, cal.samples_spec(), m as nat) == collect_spec(
                readings@,
                m as nat,
            ),
        decreases n - i,
    {
        let reading = readings[i];
        let done = cal.offer(reading);
        i += 1;
        if done {
            proof {
                assert(collect_rec(readings@, i as int, cal.samples_spec(), m as nat) == Some(
                    cal.samples_spec(),
                ));
            }
            let v = cal.into_samples();
            return Some(v);
        }
    }
    None
}

/// The whole clock-granularity estimate of one recorded run: collect `m`
/// samples from the readings, then take the minimum clamped delta.  `None`
/// exactly when the readings run out before `m` samples are stored; a
/// successful estimate is always at least 1.
pub fn estimate_granularity(readings: &Vec<i64>, m: usize) -> (r: Option<i64>)
    requires
        forall|i: int| 0 <= i < readings@.len() ==> #[trigger] readings@[i] >= 0,
    ensures
        match (r, collect_spec(readings@, m as nat)) {
            (Some(g), Some(s)) => g == min_delta_spec(s) && g >= 1,
            (None, None) => true,
            _ => false,
        },
{
    match collect_samples(readings, m) {
        Some(samples) => {
            proof {
                lemma_spaced_samples_give_positive_granularity(samples@);
            }
            Some(min_clamped_delta(&samples))
        },
        None => None,
    }
}

/// Report an estimate of at least one microsecond as it is; treat anything
/// smaller as a sub-microsecond clock and fall back to 1, so downstream
/// tick-count divisions are well defined.
pub fn granularity_or_one(g: i64) -> (r: i64)
    ensures
        r == if g >= 1 {
            g as int
        } else {
            1int
        },
{
    if g >= 1 {
        g
    } else {
        1
    }
}

} // verus!
