//! Numerical validation.
//!
//! The validator recomputes, independently of the arrays, the value every
//! element should hold at the end of the run: it replays the seed values,
//! the warm-up doubling of `a` and the full kernel recurrence on three
//! scalars ([`scalar_trace`]), then checks each measured array against its
//! expected value.  An array fails when its *average* relative error
//! exceeds the tolerance `1 / EPSILON_RECIP`; for a failed array the
//! per-element error count says how many individual elements deviate by
//! more than the tolerance.  Validation reports; it never halts the rest of
//! the benchmark's reporting.

use crate::kernels::StreamArrays;
use crate::kernels::cycle_fits;
use crate::kernels::cycle_spec;
use crate::kernels::lemma_trace_fits_step;
use crate::kernels::seed_after_warmup;
use crate::kernels::trace_fits;
use crate::kernels::trace_spec;
use vstd::prelude::*;

verus! {

/// The mathematical triple a 64-bit element triple stands for.
pub open spec fn triple_int(t: (i64, i64, i64)) -> (int, int, int) {
    (t.0 as int, t.1 as int, t.2 as int)
}

/// One cycle of the scalar replay, executed on 64-bit values.
pub fn cycle_values(t: (i64, i64, i64), s: i64) -> (r: (i64, i64, i64))
    requires
        cycle_fits(triple_int(t), s as int),
    ensures
        triple_int(r) == cycle_spec(triple_int(t), s as int),
{
    let c1 = t.0;
    let b1 = s * c1;
    let c2 = t.0 + b1;
    let a1 = b1 + s * c2;
    (a1, b1, c2)
}

/// Decide at run time whether one cycle from `t` stays inside the 64-bit
/// element range, using 128-bit intermediates.
pub fn cycle_fits_exec(t: (i64, i64, i64), s: i64) -> (r: bool)
    ensures
        r == cycle_fits(triple_int(t), s as int),
{
    let a128 = t.0 as i128;
    let s128 = s as i128;
    assert(i128::MIN <= s128 * a128 <= i128::MAX) by (nonlinear_arith)
        requires
            -0x8000000000000000 <= s128 <= 0x7fffffffffffffff,
            -0x8000000000000000 <= a128 <= 0x7fffffffffffffff,
    ;
    let b1 = s128 * a128;
    if b1 < i64::MIN as i128 || b1 > i64::MAX as i128 {
        return false;
    }
    let c2 = a128 + b1;
    if c2 < i64::MIN as i128 || c2 > i64::MAX as i128 {
        return false;
    }
    assert(i128::MIN <= s128 * c2 <= i128::MAX) by (nonlinear_arith)
        requires
            -0x8000000000000000 <= s128 <= 0x7fffffffffffffff,
            -0x8000000000000000 <= c2 <= 0x7fffffffffffffff,
    ;
    let sc2 = s128 * c2;
    if sc2 < i64::MIN as i128 || sc2 > i64::MAX as i128 {
        return false;
    }
    let a1 = b1 + sc2;
    if a1 < i64::MIN as i128 || a1 > i64::MAX as i128 {
        return false;
    }
    true
}

/// Decide at run time whether all `n` cycles from `t` stay inside the
/// 64-bit element range.
pub fn trace_fits_exec(t: (i64, i64, i64), s: i64, n: usize) -> (r: bool)
    ensures
        r == trace_fits(triple_int(t), s as int, n as nat),
{
    let mut cur = t;
    let mut k: usize = 0;
    while k < n
        invariant
            k <= n,
            trace_fits(triple_int(t), s as int, k as nat),
            triple_int(cur) == trace_spec(triple_int(t), s as int, k as nat),
        decreases n - k,
    {
        if !cycle_fits_exec(cur, s) {
            proof {
                if trace_fits(triple_int(t), s as int, n as nat) {
                    lemma_trace_fits_step(triple_int(t), s as int, n as nat, k as nat);
                }
            }
            return false;
        }
        cur = cycle_values(cur, s);
        k += 1;
    }
    true
}

/// The scalar replay: the triple reached after `n` cycles from `t`.
pub fn scalar_trace(t: (i64, i64, i64), s: i64, n: usize) -> (r: (i64, i64, i64))
    requires
        trace_fits(triple_int(t), s as int, n as nat),
    ensures
        triple_int(r) == trace_spec(triple_int(t), s as int, n as nat),
{
    let mut cur = t;
    let mut k: usize = 0;
    while k < n
        invariant
            k <= n,
            trace_fits(triple_int(t), s as int, n as nat),
            triple_int(cur) == trace_spec(triple_int(t), s as int, k as nat),
        decreases n - k,
    {
        proof {
            lemma_trace_fits_step(triple_int(t), s as int, n as nat, k as nat);
        }
        cur = cycle_values(cur, s);
        k += 1;
    }
    cur
}

/// The expected element triple of a run of `ntimes` trials: the seeds after
/// the warm-up doubling, taken through `ntimes` cycles with the benchmark
/// scalar.
pub open spec fn expected_spec(ntimes: nat) -> (int, int, int) {
    trace_spec(seed_after_warmup(), crate::STREAM_SCALAR as int, ntimes)
}

/// Expected final element values: start the scalars at the seeds `(1, 2, 0)`,
/// apply the warm-up doubling of `a` once, then replay `ntimes` cycles with
/// the benchmark scalar.
pub fn expected_finals(ntimes: usize) -> (r: (i64, i64, i64))
    requires
        trace_fits(seed_after_warmup(), crate::STREAM_SCALAR as int, ntimes as nat),
    ensures
        triple_int(r) == trace_spec(seed_after_warmup(), crate::STREAM_SCALAR as int, ntimes as nat),
{
    let a0: i64 = 1;
    let b0: i64 = 2;
    let c0: i64 = 0;
    let a1 = 2 * a0;
    scalar_trace((a1, b0, c0), crate::STREAM_SCALAR, ntimes)
}

/// Expected final element values with the range check made at run time:
/// `Some` exactly when every one of the `ntimes` cycles stays inside the
/// 64-bit element range.
pub fn try_expected_finals(ntimes: usize) -> (r: Option<(i64, i64, i64)>)
    ensures
        r is Some <==> trace_fits(seed_after_warmup(), crate::STREAM_SCALAR as int, ntimes as nat),
        r matches Some(v) ==> triple_int(v) == trace_spec(
            seed_after_warmup(),
            crate::STREAM_SCALAR as int,
            ntimes as nat,
        ),
{
    let warmed: (i64, i64, i64) = (2, 2, 0);
    if trace_fits_exec(warmed, crate::STREAM_SCALAR, ntimes) {
        Some(expected_finals(ntimes))
    } else {
        None
    }
}

/// `|x - e|`.
pub open spec fn abs_diff(x: int, e: int) -> int {
    if x >= e {
        x - e
    } else {
        e - x
    }
}

/// `|x|`.
pub open spec fn abs_int(x: int) -> int {
    if x >= 0 {
        x
    } else {
        -x
    }
}

/// Sum of `|xs[i] - e|` over the first `n` elements.
pub open spec fn err_sum_upto(xs: Seq<i64>, e: int, n: int) -> int
    decreases n,
{
    if n <= 0 {
        0
    } else {
        err_sum_upto(xs, e, n - 1) + abs_diff(xs[n - 1] as int, e)
    }
}

/// Sum of the absolute errors of a whole array against `e`.
pub open spec fn err_sum(xs: Seq<i64>, e: int) -> int {
    err_sum_upto(xs, e, xs.len() as int)
}

/// The array's average relative error exceeds the tolerance:
/// `(err_sum / len) / |e| > 1 / EPSILON_RECIP`, stated without division.
pub open spec fn avg_exceeds_tolerance(xs: Seq<i64>, e: int) -> bool {
    err_sum(xs, e) * (crate::EPSILON_RECIP as int) > abs_int(e) * xs.len()
}

/// Element `x` deviates from `e` by more than the tolerance relative to `e`:
/// `|x - e| / |e| > 1 / EPSILON_RECIP`, stated without division.
pub open spec fn elem_exceeds_tolerance(x: int, e: int) -> bool {
    abs_diff(x, e) * (crate::EPSILON_RECIP as int) > abs_int(e)
}

/// How many of the first `n` elements deviate by more than the tolerance.
pub open spec fn err_count_upto(xs: Seq<i64>, e: int, n: int) -> int
    decreases n,
{
    if n <= 0 {
        0
    } else {
        err_count_upto(xs, e, n - 1) + if elem_exceeds_tolerance(xs[n - 1] as int, e) {
            1int
        } else {
            0int
        }
    }
}

/// How many elements of a whole array deviate by more than the tolerance.
pub open spec fn err_count(xs: Seq<i64>, e: int) -> int {
    err_count_upto(xs, e, xs.len() as int)
}

/// Every element of `xs` lies within the validated magnitude range.
pub open spec fn all_within_magnitude(xs: Seq<i64>) -> bool {
    forall|i: int|
        0 <= i < xs.len() ==> -crate::MAX_ELEMENT_MAGNITUDE <= #[trigger] xs[i]
            <= crate::MAX_ELEMENT_MAGNITUDE
}

/// An expected value validation can divide by and accumulate against.
pub open spec fn usable_expected(e: int) -> bool {
    e != 0 && -crate::MAX_ELEMENT_MAGNITUDE <= e <= crate::MAX_ELEMENT_MAGNITUDE
}

/// Validation outcome for one array against its expected element value.
#[derive(Clone, Copy, PartialEq, Eq, Structural, Debug)]
pub struct ArrayReport {
    /// The expected element value.
    pub expected: i64,
    /// Sum of the per-element absolute errors.
    pub sum_abs_err: u128,
    /// Number of elements checked.
    pub len: usize,
    /// The average relative error exceeded the tolerance.
    pub failed: bool,
    /// For a failed array, how many elements deviate by more than the
    /// tolerance on their own; 0 for a passing array.
    pub error_count: usize,
}

/// What a faithful report of `xs` against expected value `e` holds.
pub open spec fn report_matches(rep: ArrayReport, xs: Seq<i64>, e: int) -> bool {
    &&& rep.expected == e
    &&& rep.len == xs.len()
    &&& rep.sum_abs_err == err_sum(xs, e)
    &&& rep.failed == avg_exceeds_tolerance(xs, e)
    &&& (rep.failed ==> rep.error_count == err_count(xs, e))
    &&& (!rep.failed ==> rep.error_count == 0)
}

/// The error count never exceeds the number of elements counted.
proof fn lemma_err_count_bound(xs: Seq<i64>, e: int, n: int)
    requires
        0 <= n <= xs.len(),
    ensures
        0 <= err_count_upto(xs, e, n) <= n,
    decreases n,
{
    if n > 0 {
        lemma_err_count_bound(xs, e, n - 1);
    }
}

/// Check one measured array against its expected element value.
pub fn check_array(xs: &Vec<i64>, expected: i64) -> (r: ArrayReport)
    requires
        1 <= xs@.len() <= crate::MAX_VALIDATED_LEN,
        usable_expected(expected as int),
        all_within_magnitude(xs@),
    ensures
        report_matches(r, xs@, expected as int),
{
    let n = xs.len();
    let ae: i64 = if expected >= 0 {
        expected
    } else {
        -expected
    };
    let mut sum: u128 = 0;
    let mut i: usize = 0;
    while i < n
        invariant
            i <= n,
            n == xs@.len(),
            1 <= xs@.len() <= crate::MAX_VALIDATED_LEN,
            usable_expected(expected as int),
            all_within_magnitude(xs@),
            sum == err_sum_upto(xs@, expected as int, i as int),
            sum <= (i as int) * 18014398509481984,
        decreases n - i,
    {
        let x = xs[i];
        proof {
            assert(-crate::MAX_ELEMENT_MAGNITUDE <= xs@[i as int] <= crate::MAX_ELEMENT_MAGNITUDE);
        }
        let d: i64 = if x >= expected {
            x - expected
        } else {
            expected - x
        };
        proof {
            assert(sum + d <= ((i + 1) as int) * 18014398509481984) by (nonlinear_arith)
                requires
                    sum <= (i as int) * 18014398509481984,
                    0 <= d <= 18014398509481984,
                    i >= 0,
            ;
            assert(((i + 1) as int) * 18014398509481984 <= 18014398509481984000000000)
                by (nonlinear_arith)
                requires
                    0 <= (i + 1) as int <= 1000000000,
            ;
        }
        sum = sum + (d as u128);
        i += 1;
    }
    proof {
        assert(sum <= 18014398509481984000000000) by (nonlinear_arith)
            requires
                sum <= (n as int) * 18014398509481984,
                0 <= n as int <= 1000000000,
        ;
        assert(sum * 10000000000000 <= 180143985094819840000000000000000000000) by (nonlinear_arith)
            requires
                0 <= sum <= 18014398509481984000000000,
        ;
        assert((ae as int) * (n as int) <= 9007199254740992000000000) by (nonlinear_arith)
            requires
                0 <= ae as int <= 9007199254740992,
                0 <= n as int <= 1000000000,
        ;
    }
    let lhs: u128 = sum * (crate::EPSILON_RECIP);
    let rhs: u128 = (ae as u128) * (n as u128);
    let failed = lhs > rhs;
    let mut error_count: usize = 0;
    if failed {
        let mut i2: usize = 0;
        while i2 < n
            invariant
                i2 <= n,
                n == xs@.len(),
                1 <= xs@.len() <= crate::MAX_VALIDATED_LEN,
                usable_expected(expected as int),
                all_within_magnitude(xs@),
                ae == abs_int(expected as int),
                error_count == err_count_upto(xs@, expected as int, i2 as int),
                error_count <= i2,
            decreases n - i2,
        {
            let x = xs[i2];
            let d: i64 = if x >= expected {
                x - expected
            } else {
                expected - x
            };
            if (d as u128) * (crate::EPSILON_RECIP) > (ae as u128) {
                error_count += 1;
            }
            proof {
                lemma_err_count_bound(xs@, expected as int, i2 + 1);
            }
            i2 += 1;
        }
    }
    ArrayReport { expected, sum_abs_err: sum, len: n, failed, error_count }
}

/// Validation outcome for the three arrays.
#[derive(Clone, Copy, PartialEq, Eq, Structural, Debug)]
pub struct ValidationReport {
    /// Outcome for array `a`.
    pub a: ArrayReport,
    /// Outcome for array `b`.
    pub b: ArrayReport,
    /// Outcome for array `c`.
    pub c: ArrayReport,
    /// Validation succeeds only when no array failed.
    pub passed: bool,
}

/// Check the three measured arrays against an expected triple.
pub fn validate_arrays(arrs: &StreamArrays, expected: (i64, i64, i64)) -> (r: ValidationReport)
    requires
        arrs.wf(),
        1 <= arrs.len_spec() <= crate::MAX_VALIDATED_LEN,
        usable_expected(expected.0 as int),
        usable_expected(expected.1 as int),
        usable_expected(expected.2 as int),
        all_within_magnitude(arrs.a@),
        all_within_magnitude(arrs.b@),
        all_within_magnitude(arrs.c@),
    ensures
        report_matches(r.a, arrs.a@, expected.0 as int),
        report_matches(r.b, arrs.b@, expected.1 as int),
        report_matches(r.c, arrs.c@, expected.2 as int),
        r.passed == (!r.a.failed && !r.b.failed && !r.c.failed),
{
    let ra = check_array(&arrs.a, expected.0);
    let rb = check_array(&arrs.b, expected.1);
    let rc = check_array(&arrs.c, expected.2);
    let passed = !ra.failed && !rb.failed && !rc.failed;
    ValidationReport { a: ra, b: rb, c: rc, passed }
}

/// Everything the whole validation step needs of a finished run: the scalar
/// replay stays in the 64-bit element range, every expected value is usable
/// (non-zero, within the validated magnitude), and the measured arrays are
/// equally sized, non-empty, not oversized, and within the validated
/// magnitude.
pub open spec fn validation_applicable(arrs: StreamArrays, ntimes: nat) -> bool {
    &&& arrs.wf()
    &&& 1 <= arrs.len_spec() <= crate::MAX_VALIDATED_LEN
    &&& trace_fits(seed_after_warmup(), crate::STREAM_SCALAR as int, ntimes)
    &&& usable_expected(expected_spec(ntimes).0)
    &&& usable_expected(expected_spec(ntimes).1)
    &&& usable_expected(expected_spec(ntimes).2)
    &&& all_within_magnitude(arrs.a@)
    &&& all_within_magnitude(arrs.b@)
    &&& all_within_magnitude(arrs.c@)
}

/// Every element of the array lies within the validated magnitude, decided
/// at run time.
fn all_within_magnitude_exec(xs: &Vec<i64>) -> (r: bool)
    ensures
        r == all_within_magnitude(xs@),
{
    let n = xs.len();
    let mut i: usize = 0;
    while i < n
        invariant
            i <= n,
            n == xs@.len(),
            forall|j: int|
                0 <= j < i ==> -crate::MAX_ELEMENT_MAGNITUDE <= #[trigger] xs@[j]
                    <= crate::MAX_ELEMENT_MAGNITUDE,
        decreases n - i,
    {
        let x = xs[i];
        if x < -crate::MAX_ELEMENT_MAGNITUDE || x > crate::MAX_ELEMENT_MAGNITUDE {
            return false;
        }
        i += 1;
    }
    true
}

/// Whether an expected value is usable, decided at run time.
fn usable_expected_exec(e: i64) -> (r: bool)
    ensures
        r == usable_expected(e as int),
{
    e != 0 && -crate::MAX_ELEMENT_MAGNITUDE <= e && e <= crate::MAX_ELEMENT_MAGNITUDE
}

/// The whole validation step: replay the scalar recurrence for `ntimes`
/// cycles from the warmed-up seeds, then check every array against its
/// expected value.  `None` exactly when the run falls outside what the
/// validator can check exactly ([`validation_applicable`]); validation
/// itself never halts the benchmark's reporting.
pub fn validate(arrs: &StreamArrays, ntimes: usize) -> (r: Option<ValidationReport>)
    ensures
        r is Some <==> validation_applicable(*arrs, ntimes as nat),
        r matches Some(rep) ==> report_matches(rep.a, arrs.a@, expected_spec(ntimes as nat).0),
        r matches Some(rep) ==> report_matches(rep.b, arrs.b@, expected_spec(ntimes as nat).1),
        r matches Some(rep) ==> report_matches(rep.c, arrs.c@, expected_spec(ntimes as nat).2),
        r matches Some(rep) ==> rep.passed == (!rep.a.failed && !rep.b.failed && !rep.c.failed),
{
    let la = arrs.a.len();
    let lb = arrs.b.len();
    let lc = arrs.c.len();
    if !(la == lb && lb == lc) {
        return None;
    }
    if la < 1 || la > crate::MAX_VALIDATED_LEN {
        return None;
    }
    match try_expected_finals(ntimes) {
        None => None,
        Some(e) => {
            if !usable_expected_exec(e.0) || !usable_expected_exec(e.1) || !usable_expected_exec(
                e.2,
            ) {
                return None;
            }
            if !all_within_magnitude_exec(&arrs.a) || !all_within_magnitude_exec(&arrs.b)
                || !all_within_magnitude_exec(&arrs.c) {
                return None;
            }
            Some(validate_arrays(arrs, e))
        },
    }
}

} // verus!
