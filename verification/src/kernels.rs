//! The four memory-bound kernels and their byte-traffic accounting.
//!
//! One trial runs the kernels strictly in the order Copy, Scale, Add, Triad;
//! the output of each kernel feeds the next, which is what makes the whole
//! trial replayable on scalars: one trial maps an element triple
//! `(a, b, c)` to `(b1 + s*c2, b1, c2)` where `b1 = s*a` and `c2 = a + b1`.
//! That per-element map is [`cycle_spec`], and its `n`-fold iteration
//! [`trace_spec`] is the ground truth the validator replays.

use vstd::prelude::*;

verus! {

/// Does the mathematical integer `x` fit in a 64-bit element?
pub open spec fn in_i64(x: int) -> bool {
    i64::MIN <= x <= i64::MAX
}

/// One full Copy/Scale/Add/Triad cycle applied to the element triple
/// `(a, b, c)` with scalar `s`: Copy makes `c1 = a`, Scale makes
/// `b1 = s * c1`, Add makes `c2 = a + b1`, Triad makes `a1 = b1 + s * c2`.
pub open spec fn cycle_spec(t: (int, int, int), s: int) -> (int, int, int) {
    let c1 = t.0;
    let b1 = s * c1;
    let c2 = t.0 + b1;
    let a1 = b1 + s * c2;
    (a1, b1, c2)
}

/// Every intermediate value of one cycle on `t` stays inside the 64-bit
/// element range.
pub open spec fn cycle_fits(t: (int, int, int), s: int) -> bool {
    let c1 = t.0;
    let b1 = s * c1;
    let c2 = t.0 + b1;
    let a1 = b1 + s * c2;
    in_i64(b1) && in_i64(c2) && in_i64(s * c2) && in_i64(a1)
}

/// The element triple after `n` full kernel cycles starting from `t`.
pub open spec fn trace_spec(t: (int, int, int), s: int, n: nat) -> (int, int, int)
    decreases n,
{
    if n == 0 {
        t
    } else {
        cycle_spec(trace_spec(t, s, (n - 1) as nat), s)
    }
}

/// Every intermediate value of every one of the `n` cycles starting from `t`
/// stays inside the 64-bit element range.
pub open spec fn trace_fits(t: (int, int, int), s: int, n: nat) -> bool
    decreases n,
{
    if n == 0 {
        true
    } else {
        trace_fits(t, s, (n - 1) as nat) && cycle_fits(trace_spec(t, s, (n - 1) as nat), s)
    }
}

/// The four kernels, in the order they run within one trial.
#[derive(Clone, Copy, PartialEq, Eq, Structural, Debug)]
pub enum Kernel {
    Copy,
    Scale,
    Add,
    Triad,
}

impl Kernel {
    /// Position of this kernel within one trial, and the row it owns in the
    /// timing matrix.
    pub open spec fn index_spec(self) -> int {
        match self {
            Kernel::Copy => 0,
            Kernel::Scale => 1,
            Kernel::Add => 2,
            Kernel::Triad => 3,
        }
    }

    /// How many array elements each kernel touches per index: Copy and Scale
    /// read one array and write one, Add and Triad read two and write one.
    pub open spec fn word_factor_spec(self) -> int {
        match self {
            Kernel::Copy => 2,
            Kernel::Scale => 2,
            Kernel::Add => 3,
            Kernel::Triad => 3,
        }
    }

    /// The kernel that owns row `i` of the timing matrix.
    pub fn from_index(i: usize) -> (k: Kernel)
        requires
            i < 4,
        ensures
            k.index_spec() == i,
    {
        if i == 0 {
            Kernel::Copy
        } else if i == 1 {
            Kernel::Scale
        } else if i == 2 {
            Kernel::Add
        } else {
            Kernel::Triad
        }
    }

    /// Position of this kernel within one trial.
    pub fn index(&self) -> (i: usize)
        ensures
            i == self.index_spec(),
    {
        match self {
            Kernel::Copy => 0,
            Kernel::Scale => 1,
            Kernel::Add => 2,
            Kernel::Triad => 3,
        }
    }

    /// Human-readable kernel name.
    pub fn label(&self) -> (s: &'static str)
        ensures
            self is Copy ==> s@ == "Copy"@,
            self is Scale ==> s@ == "Scale"@,
            self is Add ==> s@ == "Add"@,
            self is Triad ==> s@ == "Triad"@,
    {
        match self {
            Kernel::Copy => "Copy",
            Kernel::Scale => "Scale",
            Kernel::Add => "Add",
            Kernel::Triad => "Triad",
        }
    }

    /// Elements moved per index position.
    pub fn word_factor(&self) -> (f: usize)
        ensures
            f == self.word_factor_spec(),
    {
        match self {
            Kernel::Copy => 2,
            Kernel::Scale => 2,
            Kernel::Add => 3,
            Kernel::Triad => 3,
        }
    }

    /// Total bytes this kernel moves in one pass over arrays of `n` elements.
    pub fn bytes_moved(&self, n: usize) -> (b: usize)
        requires
            self.word_factor_spec() * crate::BYTES_PER_ELEMENT * n <= usize::MAX,
        ensures
            b == self.word_factor_spec() * crate::BYTES_PER_ELEMENT * n,
    {
        let f = self.word_factor();
        f * crate::BYTES_PER_ELEMENT * n
    }
}

/// The three equally sized arrays the benchmark streams over, owned by one
/// execution context for the whole run.
pub struct StreamArrays {
    pub a: Vec<i64>,
    pub b: Vec<i64>,
    pub c: Vec<i64>,
}

impl StreamArrays {
    /// The three arrays always have the same length.
    pub open spec fn wf(self) -> bool {
        self.a.len() == self.b.len() && self.b.len() == self.c.len()
    }

    pub open spec fn len_spec(self) -> int {
        self.a.len() as int
    }

    /// The element triple `(a[i], b[i], c[i])`.
    pub open spec fn triple_at(self, i: int) -> (int, int, int) {
        (self.a[i] as int, self.b[i] as int, self.c[i] as int)
    }

    /// Allocate the arrays and seed every triple with `(1, 2, 0)`.
    pub fn new(n: usize) -> (r: StreamArrays)
        ensures
            r.wf(),
            r.len_spec() == n,
            forall|i: int| 0 <= i < n ==> r.triple_at(i) == seed_triple(),
    {
        let mut a: Vec<i64> = Vec::new();
        let mut b: Vec<i64> = Vec::new();
        let mut c: Vec<i64> = Vec::new();
        let mut j: usize = 0;
        while j < n
            invariant
                j <= n,
                a.len() == j,
                b.len() == j,
                c.len() == j,
                forall|i: int| 0 <= i < j ==> a@[i] == 1 && b@[i] == 2 && c@[i] == 0,
            decreases n - j,
        {
            a.push(1);
            b.push(2);
            c.push(0);
            j += 1;
        }
        StreamArrays { a, b, c }
    }

    /// Number of elements in each array.
    pub fn len(&self) -> (n: usize)
        ensures
            n == self.len_spec(),
    {
        self.a.len()
    }

    /// The untimed warm-up pass: double every element of `a` in place.  Its
    /// side effect is deliberately kept, so the validator's scalar replay
    /// applies the same doubling once before the trials.
    pub fn double_a(&mut self)
        requires
            forall|i: int| 0 <= i < old(self).a@.len() ==> in_i64(2 * #[trigger] old(self).a@[i]),
        ensures
            final(self).a@.len() == old(self).a@.len(),
            forall|i: int|
                0 <= i < old(self).a@.len() ==> #[trigger] final(self).a@[i] == 2 * old(self).a@[i],
            final(self).b == old(self).b,
            final(self).c == old(self).c,
    {
        let n = self.a.len();
        let mut j: usize = 0;
        while j < n
            invariant
                j <= n,
                self.a@.len() == n,
                forall|i: int| j <= i < n ==> #[trigger] self.a@[i] == old(self).a@[i],
                forall|i: int| j <= i < n ==> in_i64(2 * #[trigger] self.a@[i]),
                forall|i: int| 0 <= i < j ==> #[trigger] self.a@[i] == 2 * old(self).a@[i],
                self.b == old(self).b,
                self.c == old(self).c,
            decreases n - j,
        {
            let v = self.a[j];
            self.a.set(j, 2 * v);
            j += 1;
        }
    }

    /// Copy kernel: `c[i] = a[i]` for every index.
    pub fn copy_step(&mut self)
        requires
            old(self).wf(),
        ensures
            final(self).wf(),
            final(self).a == old(self).a,
            final(self).b == old(self).b,
            final(self).c@ == old(self).a@,
    {
        let n = self.a.len();
        let mut j: usize = 0;
        while j < n
            invariant
                j <= n,
                self.a@.len() == n,
                self.c@.len() == n,
                forall|i: int| 0 <= i < j ==> #[trigger] self.c@[i] == self.a@[i],
                self.a == old(self).a,
                self.b == old(self).b,
            decreases n - j,
        {
            let v = self.a[j];
            self.c.set(j, v);
            j += 1;
        }
        proof {
            assert(final(self).c@ =~= old(self).a@);
        }
    }

    /// Scale kernel: `b[i] = s * c[i]` for every index.
    pub fn scale_step(&mut self, s: i64)
        requires
            old(self).wf(),
            forall|i: int| 0 <= i < old(self).c@.len() ==> in_i64(s * #[trigger] old(self).c@[i]),
        ensures
            final(self).wf(),
            final(self).a == old(self).a,
            final(self).c == old(self).c,
            final(self).b@.len() == old(self).b@.len(),
            forall|i: int|
                0 <= i < old(self).b@.len() ==> #[trigger] final(self).b@[i] == s * old(self).c@[i],
    {
        let n = self.c.len();
        let mut j: usize = 0;
        while j < n
            invariant
                j <= n,
                self.b@.len() == n,
                self.c@.len() == n,
                forall|i: int| 0 <= i < n ==> in_i64(s * #[trigger] self.c@[i]),
                forall|i: int| 0 <= i < j ==> #[trigger] self.b@[i] == s * self.c@[i],
                self.a == old(self).a,
                self.c == old(self).c,
            decreases n - j,
        {
            let v = self.c[j];
            self.b.set(j, s * v);
            j += 1;
        }
    }

    /// Add kernel: `c[i] = a[i] + b[i]` for every index.
    pub fn add_step(&mut self)
        requires
            old(self).wf(),
            forall|i: int|
                0 <= i < old(self).a@.len() ==> in_i64(
                    #[trigger] old(self).a@[i] + old(self).b@[i],
                ),
        ensures
            final(self).wf(),
            final(self).a == old(self).a,
            final(self).b == old(self).b,
            final(self).c@.len() == old(self).c@.len(),
            forall|i: int|
                0 <= i < old(self).c@.len() ==> #[trigger] final(self).c@[i] == old(self).a@[i]
                    + old(self).b@[i],
    {
        let n = self.a.len();
        let mut j: usize = 0;
        while j < n
            invariant
                j <= n,
                self.a@.len() == n,
                self.b@.len() == n,
                self.c@.len() == n,
                forall|i: int| 0 <= i < n ==> in_i64(#[trigger] self.a@[i] + self.b@[i]),
                forall|i: int| 0 <= i < j ==> #[trigger] self.c@[i] == self.a@[i] + self.b@[i],
                self.a == old(self).a,
                self.b == old(self).b,
            decreases n - j,
        {
            let va = self.a[j];
            let vb = self.b[j];
            self.c.set(j, va + vb);
            j += 1;
        }
    }

    /// Triad kernel: `a[i] = b[i] + s * c[i]` for every index.
    pub fn triad_step(&mut self, s: i64)
        requires
            old(self).wf(),
            forall|i: int| 0 <= i < old(self).c@.len() ==> in_i64(s * #[trigger] old(self).c@[i]),
            forall|i: int|
                0 <= i < old(self).c@.len() ==> in_i64(
                    #[trigger] old(self).b@[i] + s * old(self).c@[i],
                ),
        ensures
            final(self).wf(),
            final(self).b == old(self).b,
            final(self).c == old(self).c,
            final(self).a@.len() == old(self).a@.len(),
            forall|i: int|
                0 <= i < old(self).a@.len() ==> #[trigger] final(self).a@[i] == old(self).b@[i] + s
                    * old(self).c@[i],
    {
        let n = self.c.len();
        let mut j: usize = 0;
        while j < n
            invariant
                j <= n,
                self.a@.len() == n,
                self.b@.len() == n,
                self.c@.len() == n,
                forall|i: int| 0 <= i < n ==> in_i64(s * #[trigger] self.c@[i]),
                forall|i: int| 0 <= i < n ==> in_i64(#[trigger] self.b@[i] + s * self.c@[i]),
                forall|i: int| 0 <= i < j ==> #[trigger] self.a@[i] == self.b@[i] + s * self.c@[i],
                self.b == old(self).b,
                self.c == old(self).c,
            decreases n - j,
        {
            let vb = self.b[j];
            let vc = self.c[j];
            self.a.set(j, vb + s * vc);
            j += 1;
        }
    }

    /// One full trial: Copy, Scale, Add, Triad, strictly in that order, so
    /// that each element triple moves exactly one step along [`trace_spec`].
    pub fn run_cycle(&mut self, s: i64)
        requires
            old(self).wf(),
            forall|i: int|
                0 <= i < old(self).len_spec() ==> cycle_fits(#[trigger] old(self).triple_at(i), s as int),
        ensures
            final(self).wf(),
            final(self).len_spec() == old(self).len_spec(),
            forall|i: int|
                0 <= i < old(self).len_spec() ==> #[trigger] final(self).triple_at(i) == cycle_spec(
                    old(self).triple_at(i),
                    s as int,
                ),
    {
        self.copy_step();
        assert forall|i: int| 0 <= i < self.c@.len() implies in_i64(s * #[trigger] self.c@[i]) by {
            assert(cycle_fits(old(self).triple_at(i), s as int));
        };
        self.scale_step(s);
        assert forall|i: int| 0 <= i < self.a@.len() implies in_i64(
            #[trigger] self.a@[i] + self.b@[i],
        ) by {
            assert(cycle_fits(old(self).triple_at(i), s as int));
        };
        self.add_step();
        assert forall|i: int| 0 <= i < self.c@.len() implies in_i64(s * #[trigger] self.c@[i])
            && in_i64(self.b@[i] + s * self.c@[i]) by {
            assert(cycle_fits(old(self).triple_at(i), s as int));
        };
        self.triad_step(s);
        assert forall|i: int|
            0 <= i < old(self).len_spec() implies #[trigger] final(self).triple_at(i) == cycle_spec(
            old(self).triple_at(i),
            s as int,
        ) by {
            assert(cycle_fits(old(self).triple_at(i), s as int));
        };
    }

    /// Run `ntimes` full trials back to back; every element triple follows
    /// the scalar recurrence for `ntimes` steps.
    pub fn run_trials(&mut self, s: i64, ntimes: usize)
        requires
            old(self).wf(),
            forall|i: int|
                0 <= i < old(self).len_spec() ==> trace_fits(
                    #[trigger] old(self).triple_at(i),
                    s as int,
                    ntimes as nat,
                ),
        ensures
            final(self).wf(),
            final(self).len_spec() == old(self).len_spec(),
            forall|i: int|
                0 <= i < old(self).len_spec() ==> #[trigger] final(self).triple_at(i) == trace_spec(
                    old(self).triple_at(i),
                    s as int,
                    ntimes as nat,
                ),
    {
        let mut k: usize = 0;
        while k < ntimes
            invariant
                k <= ntimes,
                self.wf(),
                self.len_spec() == old(self).len_spec(),
                forall|i: int|
                    0 <= i < old(self).len_spec() ==> trace_fits(
                        #[trigger] old(self).triple_at(i),
                        s as int,
                        ntimes as nat,
                    ),
                forall|i: int|
                    0 <= i < old(self).len_spec() ==> #[trigger] self.triple_at(i) == trace_spec(
                        old(self).triple_at(i),
                        s as int,
                        k as nat,
                    ),
            decreases ntimes - k,
        {
            assert forall|i: int| 0 <= i < self.len_spec() implies cycle_fits(
                #[trigger] self.triple_at(i),
                s as int,
            ) by {
                assert(trace_fits(old(self).triple_at(i), s as int, ntimes as nat));
                lemma_trace_fits_step(old(self).triple_at(i), s as int, ntimes as nat, k as nat);
            };
            self.run_cycle(s);
            k = k + 1;
            assert forall|i: int|
                0 <= i < old(self).len_spec() implies #[trigger] self.triple_at(i) == trace_spec(
                old(self).triple_at(i),
                s as int,
                k as nat,
            ) by {
                assert(trace_spec(old(self).triple_at(i), s as int, k as nat) == cycle_spec(
                    trace_spec(old(self).triple_at(i), s as int, (k - 1) as nat),
                    s as int,
                ));
            };
        }
    }
}

/// The element triple every index starts from: `a = 1`, `b = 2`, `c = 0`.
pub open spec fn seed_triple() -> (int, int, int) {
    (1, 2, 0)
}

/// The seed triple after the untimed warm-up pass doubled `a` once.
pub open spec fn seed_after_warmup() -> (int, int, int) {
    (2, 2, 0)
}

/// One whole benchmark computation, timing aside: seed the three arrays,
/// apply the untimed warm-up doubling of `a`, then run `ntimes` full trials.
/// Every element triple of the result equals the scalar replay
/// `trace_spec(seed_after_warmup(), s, ntimes)` — array-based and
/// scalar-based computation agree exactly at every element.
pub fn run_seeded_trials(n: usize, s: i64, ntimes: usize) -> (r: StreamArrays)
    requires
        trace_fits(seed_after_warmup(), s as int, ntimes as nat),
    ensures
        r.wf(),
        r.len_spec() == n,
        forall|i: int|
            0 <= i < n ==> #[trigger] r.triple_at(i) == trace_spec(
                seed_after_warmup(),
                s as int,
                ntimes as nat,
            ),
{
    let mut arrs = StreamArrays::new(n);
    assert forall|i: int| 0 <= i < arrs.a@.len() implies in_i64(2 * #[trigger] arrs.a@[i]) by {
        assert(arrs.triple_at(i) == seed_triple());
    };
    let ghost pre = arrs;
    arrs.double_a();
    assert forall|i: int| 0 <= i < arrs.len_spec() implies #[trigger] arrs.triple_at(i)
        == seed_after_warmup() by {
        assert(pre.triple_at(i) == seed_triple());
        assert(arrs.a@[i] == 2 * pre.a@[i]);
        assert(arrs.b@ == pre.b@ && arrs.c@ == pre.c@);
    };
    arrs.run_trials(s, ntimes);
    arrs
}

/// Within a run whose `n` cycles all fit, the cycle taken at any step `k < n`
/// fits as well.
pub proof fn lemma_trace_fits_step(t: (int, int, int), s: int, n: nat, k: nat)
    requires
        trace_fits(t, s, n),
        k < n,
    ensures
        cycle_fits(trace_spec(t, s, k), s),
    decreases n,
{
    if k + 1 < n {
        lemma_trace_fits_step(t, s, (n - 1) as nat, k);
    }
}

} // verus!
