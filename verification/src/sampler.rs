//! The sampler: chooses the domain points at which a plotted function is
//! evaluated, and assembles the evaluation outcomes into the sample sequence
//! that gets drawn.
//!
//! Evaluation itself happens outside: the evaluator is an opaque collaborator
//! that may fail on any point. The caller walks the points this module picks,
//! hands back one outcome per point (`Some` value in milli-units on success,
//! `None` on failure or an out-of-range result), and gets the samples of the
//! successful points, in domain order, with failed points silently absent.
use vstd::prelude::*;

use vstd::arithmetic::div_mod::lemma_fundamental_div_mod_converse;

verus! {

/// Lower edge of the sampled domain, in milli-units.
pub const DOMAIN_MIN: i64 = -50000;

/// Upper edge of the sampled domain, in milli-units.
pub const DOMAIN_MAX: i64 = 50000;

/// Numerator of the step rule `(0.5 / sf) * 0.5` in fixed point: dividing
/// it by the scale factor in milli-pixels gives the step in milli-units,
/// shrinking as zoom grows.
pub const STEP_SCALE: i64 = 250000;

/// One point of a curve, in math space: milli-units on both axes.
#[derive(Clone, Copy, Debug, PartialEq, Eq, Structural)]
pub struct Sample {
    pub x: i64,
    pub y: i64,
}

/// The sampling step for scale factor `sf` (milli-pixels per unit): denser
/// as zoom grows, but never below one milli-unit.
pub open spec fn step_spec(sf: int) -> int {
    if STEP_SCALE as int / sf < 1 {
        1
    } else {
        STEP_SCALE as int / sf
    }
}

/// Compute the sampling step for scale factor `sf`.
pub fn step_size(sf: i64) -> (step: i64)
    requires
        1 <= sf,
    ensures
        step == step_spec(sf as int),
        1 <= step <= STEP_SCALE,
{
    let raw = ((STEP_SCALE as u64) / (sf as u64)) as i64;
    if raw < 1 {
        1
    } else {
        raw
    }
}

/// How many points the domain walk emits for step `step`.
pub open spec fn sample_count(step: int) -> int {
    (DOMAIN_MAX - DOMAIN_MIN) / step + 1
}

/// The domain points to evaluate at, for scale factor `sf`: starting at
/// `DOMAIN_MIN` and striding by the step while the points stay at or below
/// `DOMAIN_MAX`. Denser sampling under deeper zoom; the fixed domain does
/// not widen with it.
pub fn sample_xs(sf: i64) -> (xs: Vec<i64>)
    requires
        1 <= sf,
    ensures
        xs@.len() == sample_count(step_spec(sf as int)),
        forall|i: int|
            0 <= i < xs@.len() ==> #[trigger] xs@[i] == DOMAIN_MIN + i * step_spec(sf as int),
        forall|i: int| 0 <= i < xs@.len() ==> DOMAIN_MIN <= #[trigger] xs@[i] <= DOMAIN_MAX,
        DOMAIN_MIN + xs@.len() * step_spec(sf as int) > DOMAIN_MAX,
{
    let step = step_size(sf);
    let mut xs: Vec<i64> = Vec::new();
    let mut x: i64 = DOMAIN_MIN;
    proof {
        assert(xs@.len() * step == 0) by (nonlinear_arith)
            requires
                xs@.len() == 0,
        ;
    }
    while x <= DOMAIN_MAX
        invariant
            1 <= step <= STEP_SCALE,
            step == step_spec(sf as int),
            x == DOMAIN_MIN + xs@.len() * step,
            DOMAIN_MIN <= x <= DOMAIN_MAX + step,
            forall|i: int| 0 <= i < xs@.len() ==> #[trigger] xs@[i] == DOMAIN_MIN + i * step,
            forall|i: int| 0 <= i < xs@.len() ==> DOMAIN_MIN <= #[trigger] xs@[i] <= DOMAIN_MAX,
        decreases DOMAIN_MAX + step - x,
    {
        xs.push(x);
        proof {
            assert(xs@.len() * step == (xs@.len() - 1) * step + step) by (nonlinear_arith);
        }
        x = x + step;
    }
    proof {
        if xs@.len() == 0 {
            assert(xs@.len() * step == 0) by (nonlinear_arith)
                requires
                    xs@.len() == 0,
            ;
        }
        let q = xs@.len() - 1;
        let r = (DOMAIN_MAX - DOMAIN_MIN) - q * step;
        assert(xs@[q] == DOMAIN_MIN + q * step);
        assert(xs@.len() * step == q * step + step) by (nonlinear_arith)
            requires
                q == xs@.len() - 1,
        ;
        lemma_fundamental_div_mod_converse(DOMAIN_MAX - DOMAIN_MIN, step as int, q, r);
    }
    xs
}

/// The samples that a list of evaluation outcomes yields: one sample per
/// successful point, in order; failed points contribute nothing.
pub open spec fn collect_samples(xs: Seq<i64>, ys: Seq<Option<i64>>) -> Seq<Sample>
    decreases xs.len(),
{
    if xs.len() == 0 {
        Seq::empty()
    } else {
        let prefix = collect_samples(xs.drop_last(), ys.drop_last());
        match ys[xs.len() - 1] {
            Some(y) => prefix.push(Sample { x: xs.last(), y }),
            None => prefix,
        }
    }
}

/// Pair each domain point with its evaluation outcome and keep the
/// successes: the drawn sample sequence.
pub fn generate_seq(xs: &Vec<i64>, ys: &Vec<Option<i64>>) -> (r: Vec<Sample>)
    requires
        xs@.len() == ys@.len(),
    ensures
        r@ == collect_samples(xs@, ys@),
{
    let mut out: Vec<Sample> = Vec::new();
    let mut i: usize = 0;
    while i < xs.len()
        invariant
            xs@.len() == ys@.len(),
            0 <= i <= xs@.len(),
            out@ == collect_samples(xs@.subrange(0, i as int), ys@.subrange(0, i as int)),
        decreases xs@.len() - i,
    {
        match ys[i] {
            Some(y) => out.push(Sample { x: xs[i], y }),
            None => (),
        }
        proof {
            let pre = xs@.subrange(0, i + 1);
            let pre_y = ys@.subrange(0, i + 1);
            assert(pre.drop_last() =~= xs@.subrange(0, i as int));
            assert(pre_y.drop_last() =~= ys@.subrange(0, i as int));
            assert(pre.last() == xs@[i as int]);
        }
        i = i + 1;
    }
    proof {
        assert(xs@.subrange(0, xs@.len() as int) =~= xs@);
        assert(ys@.subrange(0, ys@.len() as int) =~= ys@);
    }
    out
}

/// A sample records a successful evaluation: some point of `xs` carries its
/// x, and the outcome there was exactly its y.
pub open spec fn witnessed(s: Sample, xs: Seq<i64>, ys: Seq<Option<i64>>) -> bool {
    exists|i: int| 0 <= i < xs.len() && xs[i] == s.x && ys[i] == Some(s.y)
}

/// Every emitted sample comes from a successful evaluation at its own x;
/// nothing stands in for a failure.
pub proof fn lemma_generate_seq_sound(xs: Seq<i64>, ys: Seq<Option<i64>>)
    requires
        xs.len() == ys.len(),
    ensures
        forall|j: int|
            0 <= j < collect_samples(xs, ys).len() ==> witnessed(
                #[trigger] collect_samples(xs, ys)[j],
                xs,
                ys,
            ),
    decreases xs.len(),
{
    if xs.len() > 0 {
        let xs1 = xs.drop_last();
        let ys1 = ys.drop_last();
        lemma_generate_seq_sound(xs1, ys1);
        let c1 = collect_samples(xs1, ys1);
        let c = collect_samples(xs, ys);
        assert forall|j: int| 0 <= j < c.len() implies witnessed(c[j], xs, ys) by {
            if j < c1.len() {
                assert(witnessed(c1[j], xs1, ys1));
                let i = choose|i: int|
                    0 <= i < xs1.len() && xs1[i] == c1[j].x && ys1[i] == Some(c1[j].y);
                assert(xs[i] == c1[j].x && ys[i] == Some(c1[j].y));
                assert(c[j] == c1[j]);
            } else {
                match ys[xs.len() - 1] {
                    Some(y) => {
                        assert(c[j] == Sample { x: xs.last(), y });
                        assert(xs[xs.len() - 1] == c[j].x && ys[xs.len() - 1] == Some(c[j].y));
                    },
                    None => {
                        assert(c == c1);
                    },
                }
            }
        }
    }
}

/// Every successful evaluation is emitted: the outcome `Some(y)` at the
/// point `xs[i]` puts the sample `(xs[i], y)` into the output.
pub proof fn lemma_generate_seq_complete(xs: Seq<i64>, ys: Seq<Option<i64>>)
    requires
        xs.len() == ys.len(),
    ensures
        forall|i: int|
            0 <= i < xs.len() && (#[trigger] ys[i]) is Some ==> collect_samples(xs, ys).contains(
                Sample { x: xs[i], y: ys[i]->Some_0 },
            ),
    decreases xs.len(),
{
    if xs.len() > 0 {
        let xs1 = xs.drop_last();
        let ys1 = ys.drop_last();
        lemma_generate_seq_complete(xs1, ys1);
        let c1 = collect_samples(xs1, ys1);
        let c = collect_samples(xs, ys);
        assert forall|i: int| 0 <= i < xs.len() && (#[trigger] ys[i]) is Some implies c.contains(
            Sample { x: xs[i], y: ys[i]->Some_0 },
        ) by {
            let s = Sample { x: xs[i], y: ys[i]->Some_0 };
            if i < xs.len() - 1 {
                assert(ys1[i] == ys[i] && xs1[i] == xs[i]);
                assert(c1.contains(s));
                let j = choose|j: int| 0 <= j < c1.len() && c1[j] == s;
                assert(c[j] == s);
            } else {
                match ys[xs.len() - 1] {
                    Some(y) => {
                        assert(c[c.len() - 1] == s);
                    },
                    None => {},
                }
            }
        }
    }
}

/// The emitted samples keep domain order: over strictly increasing domain
/// points, the x coordinates of the output strictly increase, gaps or not.
pub proof fn lemma_generate_seq_monotonic(xs: Seq<i64>, ys: Seq<Option<i64>>)
    requires
        xs.len() == ys.len(),
        forall|i1: int, i2: int| 0 <= i1 < i2 < xs.len() ==> #[trigger] xs[i1] < #[trigger] xs[i2],
    ensures
        forall|j1: int, j2: int|
            0 <= j1 < j2 < collect_samples(xs, ys).len() ==> #[trigger] collect_samples(xs, ys)[j1].x
                < #[trigger] collect_samples(xs, ys)[j2].x,
    decreases xs.len(),
{
    if xs.len() > 0 {
        let xs1 = xs.drop_last();
        let ys1 = ys.drop_last();
        lemma_generate_seq_monotonic(xs1, ys1);
        lemma_generate_seq_sound(xs1, ys1);
        let c1 = collect_samples(xs1, ys1);
        let c = collect_samples(xs, ys);
        assert forall|j1: int, j2: int| 0 <= j1 < j2 < c.len() implies c[j1].x < c[j2].x by {
            if j2 < c1.len() {
                assert(c[j1] == c1[j1] && c[j2] == c1[j2]);
            } else {
                match ys[xs.len() - 1] {
                    Some(y) => {
                        assert(c[j2] == Sample { x: xs.last(), y });
                        assert(witnessed(c1[j1], xs1, ys1));
                        let i = choose|i: int|
                            0 <= i < xs1.len() && xs1[i] == c1[j1].x && ys1[i] == Some(c1[j1].y);
                        assert(xs[i] < xs[xs.len() - 1]);
                        assert(c[j1] == c1[j1]);
                    },
                    None => {
                        assert(c == c1);
                    },
                }
            }
        }
    }
}

} // verus!
