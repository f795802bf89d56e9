//! The three iterative kernels: bisection, damped fixed point and damped
//! Newton-Raphson.
//!
//! A kernel owns the loop: the order of the trials, the budget, the tolerance
//! test and the outcome. The arithmetic of one trial is the caller's, handed
//! in as a function value; what a kernel promises is stated over that
//! function's own input-output relation.

use vstd::prelude::*;
use crate::error::SolveError;
use crate::scalar::Scalar;
use crate::scalar::ZERO_BITS;

verus! {

/// One trial of a damped fixed-point iteration at `x`: `gap` is
/// `|g(x) - x|` and `next` is the damped iterate `(x + g(x)) / 2`.
#[derive(Clone, Copy, Debug)]
pub struct Trial {
    pub gap: Scalar,
    pub next: Scalar,
}

/// Some trial at `x` misses the tolerance and proposes `next`.
pub open spec fn trial_rejects<F: Fn(Scalar) -> Trial>(
    trial: F,
    tol: Scalar,
    x: Scalar,
    next: Scalar,
) -> bool {
    exists|t: Trial| #[trigger] trial.ensures((x,), t) && !t.gap.at_most(tol) && t.next == next
}

/// Some trial at `x` meets the tolerance.
pub open spec fn trial_accepts<F: Fn(Scalar) -> Trial>(trial: F, tol: Scalar, x: Scalar) -> bool {
    exists|t: Trial| #[trigger] trial.ensures((x,), t) && t.gap.at_most(tol)
}

/// `xs` is a run of iterates from `x0` in which every iterate but the last
/// was rejected and replaced by the damped one.
pub open spec fn trial_path<F: Fn(Scalar) -> Trial>(
    trial: F,
    tol: Scalar,
    x0: Scalar,
    xs: Seq<Scalar>,
) -> bool {
    &&& xs.len() >= 1
    &&& xs[0] == x0
    &&& forall|i: int|
        0 <= i < xs.len() - 1 ==> trial_rejects(trial, tol, #[trigger] xs[i], xs[i + 1])
}

/// What a damped fixed-point solve may end in: an iterate that was reached
/// within the budget and accepted, or `NonConvergence` after `max_iter`
/// rejected trials.
pub open spec fn fixed_point_outcome<F: Fn(Scalar) -> Trial>(
    trial: F,
    x0: Scalar,
    tol: Scalar,
    max_iter: u32,
    r: Result<Scalar, SolveError>,
) -> bool {
    match r {
        Ok(x) => exists|xs: Seq<Scalar>|
            #[trigger] trial_path(trial, tol, x0, xs) && xs.len() <= max_iter && xs.last() == x
                && trial_accepts(trial, tol, x),
        Err(e) => e == SolveError::NonConvergence && exists|xs: Seq<Scalar>|
            #[trigger] trial_path(trial, tol, x0, xs) && xs.len() == max_iter + 1,
    }
}

/// Damped fixed-point iteration from `x0`.
///
/// Tries the iterates in turn and returns the first whose gap is at most
/// `tol`; a gap that is a NaN never passes. After `max_iter` rejected trials
/// the solve fails with `NonConvergence`.
pub fn damped_fixed_point<F: Fn(Scalar) -> Trial>(
    trial: F,
    x0: Scalar,
    tol: Scalar,
    max_iter: u32,
) -> (r: Result<Scalar, SolveError>)
    requires
        forall|x: Scalar| #[trigger] trial.requires((x,)),
    ensures
        fixed_point_outcome(trial, x0, tol, max_iter, r),
{
    let mut x: Scalar = x0;
    let mut n: u32 = 0;
    let ghost mut xs: Seq<Scalar> = seq![x0];
    while n < max_iter
        invariant
            n <= max_iter,
            forall|y: Scalar| #[trigger] trial.requires((y,)),
            trial_path(trial, tol, x0, xs),
            xs.len() == n + 1,
            xs.last() == x,
        decreases max_iter - n,
    {
        let t: Trial = trial(x);
        if t.gap.le(tol) {
            assert(trial_accepts(trial, tol, x));
            return Ok(x);
        }
        proof {
            assert(trial_rejects(trial, tol, x, t.next));
            let ghost prev = xs;
            xs = xs.push(t.next);
            assert forall|i: int| 0 <= i < xs.len() - 1 implies trial_rejects(
                trial,
                tol,
                #[trigger] xs[i],
                xs[i + 1],
            ) by {
                if i < prev.len() - 1 {
                    assert(xs[i] == prev[i]);
                    assert(xs[i + 1] == prev[i + 1]);
                }
            }
        }
        x = t.next;
        n = n + 1;
    }
    Err(SolveError::NonConvergence)
}

/// One trial of a damped Newton-Raphson iteration at `x`: `slope` is
/// `f'(x)`, `gap` is `|x - f(x)/f'(x) - x|` and `next` is the damped iterate
/// `(x + (x - f(x)/f'(x))) / 2`.
#[derive(Clone, Copy, Debug)]
pub struct NewtonTrial {
    pub slope: Scalar,
    pub gap: Scalar,
    pub next: Scalar,
}

/// Some trial at `x` has a usable slope, misses the tolerance and proposes
/// `next`.
pub open spec fn newton_rejects<F: Fn(Scalar) -> NewtonTrial>(
    trial: F,
    tol: Scalar,
    x: Scalar,
    next: Scalar,
) -> bool {
    exists|t: NewtonTrial| #[trigger]
        trial.ensures((x,), t) && !t.slope.negligible() && !t.gap.at_most(tol) && t.next == next
}

/// Some trial at `x` has a usable slope and meets the tolerance.
pub open spec fn newton_accepts<F: Fn(Scalar) -> NewtonTrial>(
    trial: F,
    tol: Scalar,
    x: Scalar,
) -> bool {
    exists|t: NewtonTrial| #[trigger]
        trial.ensures((x,), t) && !t.slope.negligible() && t.gap.at_most(tol)
}

/// Some trial at `x` has a slope whose magnitude is zero or subnormal.
pub open spec fn newton_singular<F: Fn(Scalar) -> NewtonTrial>(trial: F, x: Scalar) -> bool {
    exists|t: NewtonTrial| #[trigger] trial.ensures((x,), t) && t.slope.negligible()
}

/// `xs` is a run of Newton iterates from `x0` in which every iterate but the
/// last was rejected and replaced by the damped one.
pub open spec fn newton_path<F: Fn(Scalar) -> NewtonTrial>(
    trial: F,
    tol: Scalar,
    x0: Scalar,
    xs: Seq<Scalar>,
) -> bool {
    &&& xs.len() >= 1
    &&& xs[0] == x0
    &&& forall|i: int|
        0 <= i < xs.len() - 1 ==> newton_rejects(trial, tol, #[trigger] xs[i], xs[i + 1])
}

/// What a damped Newton-Raphson solve may end in: an iterate that was
/// reached within the budget and accepted, `SingularDerivative` at an iterate
/// that was reached within the budget, or `NonConvergence` after `max_iter`
/// rejected trials.
pub open spec fn newton_outcome<F: Fn(Scalar) -> NewtonTrial>(
    trial: F,
    x0: Scalar,
    tol: Scalar,
    max_iter: u32,
    r: Result<Scalar, SolveError>,
) -> bool {
    match r {
        Ok(x) => exists|xs: Seq<Scalar>|
            #[trigger] newton_path(trial, tol, x0, xs) && xs.len() <= max_iter && xs.last() == x
                && newton_accepts(trial, tol, x),
        Err(SolveError::SingularDerivative) => exists|xs: Seq<Scalar>|
            #[trigger] newton_path(trial, tol, x0, xs) && xs.len() <= max_iter && newton_singular(
                trial,
                xs.last(),
            ),
        Err(SolveError::NonConvergence) => exists|xs: Seq<Scalar>|
            #[trigger] newton_path(trial, tol, x0, xs) && xs.len() == max_iter + 1,
        Err(_) => false,
    }
}

/// Damped Newton-Raphson iteration from `x0`.
///
/// Tries the iterates in turn. A trial whose slope is zero or subnormal ends
/// the solve with `SingularDerivative` before anything is divided by it;
/// otherwise the first iterate whose gap is at most `tol` is returned. After
/// `max_iter` rejected trials the solve fails with `NonConvergence`.
pub fn damped_newton_raphson<F: Fn(Scalar) -> NewtonTrial>(
    trial: F,
    x0: Scalar,
    tol: Scalar,
    max_iter: u32,
) -> (r: Result<Scalar, SolveError>)
    requires
        forall|x: Scalar| #[trigger] trial.requires((x,)),
    ensures
        newton_outcome(trial, x0, tol, max_iter, r),
{
    let mut x: Scalar = x0;
    let mut n: u32 = 0;
    let ghost mut xs: Seq<Scalar> = seq![x0];
    while n < max_iter
        invariant
            n <= max_iter,
            forall|y: Scalar| #[trigger] trial.requires((y,)),
            newton_path(trial, tol, x0, xs),
            xs.len() == n + 1,
            xs.last() == x,
        decreases max_iter - n,
    {
        let t: NewtonTrial = trial(x);
        if t.slope.is_negligible() {
            assert(newton_singular(trial, xs.last()));
            return Err(SolveError::SingularDerivative);
        }
        if t.gap.le(tol) {
            assert(newton_accepts(trial, tol, x));
            return Ok(x);
        }
        proof {
            assert(newton_rejects(trial, tol, x, t.next));
            let ghost prev = xs;
            xs = xs.push(t.next);
            assert forall|i: int| 0 <= i < xs.len() - 1 implies newton_rejects(
                trial,
                tol,
                #[trigger] xs[i],
                xs[i + 1],
            ) by {
                if i < prev.len() - 1 {
                    assert(xs[i] == prev[i]);
                    assert(xs[i + 1] == prev[i + 1]);
                }
            }
        }
        x = t.next;
        n = n + 1;
    }
    Err(SolveError::NonConvergence)
}

/// An interval that is searched for a sign change.
#[derive(Clone, Copy, Debug)]
pub struct Bracket {
    pub lo: Scalar,
    pub hi: Scalar,
}

/// One probe of a bracket `[lo, hi]`: `mid` is `(lo + hi) / 2`, `product` is
/// `f(lo) * f(mid)`, `lower_width` is `|mid - lo|` and `upper_width` is
/// `|hi - mid|`.
#[derive(Clone, Copy, Debug)]
pub struct Probe {
    pub mid: Scalar,
    pub product: Scalar,
    pub lower_width: Scalar,
    pub upper_width: Scalar,
}

/// Whether the sign changes in the lower half: the product is below zero.
pub open spec fn keeps_lower(p: Probe) -> bool {
    p.product.below(Scalar { bits: ZERO_BITS })
}

/// The half that a probe keeps: the lower half when the sign changes there,
/// the upper half otherwise.
pub open spec fn narrowed(b: Bracket, p: Probe) -> Bracket {
    if keeps_lower(p) {
        Bracket { lo: b.lo, hi: p.mid }
    } else {
        Bracket { lo: p.mid, hi: b.hi }
    }
}

/// The width of the half that a probe keeps.
pub open spec fn kept_width(p: Probe) -> Scalar {
    if keeps_lower(p) {
        p.lower_width
    } else {
        p.upper_width
    }
}

/// Some probe of `b` keeps a half wider than the tolerance, the bracket `next`.
pub open spec fn probe_continues<F: Fn(Scalar, Scalar) -> Probe>(
    probe: F,
    tol: Scalar,
    b: Bracket,
    next: Bracket,
) -> bool {
    exists|p: Probe| #[trigger]
        probe.ensures((b.lo, b.hi), p) && !kept_width(p).at_most(tol) && next == narrowed(b, p)
}

/// Some probe of `b` keeps a half no wider than the tolerance, with midpoint
/// `mid`.
pub open spec fn probe_settles<F: Fn(Scalar, Scalar) -> Probe>(
    probe: F,
    tol: Scalar,
    b: Bracket,
    mid: Scalar,
) -> bool {
    exists|p: Probe| #[trigger]
        probe.ensures((b.lo, b.hi), p) && kept_width(p).at_most(tol) && mid == p.mid
}

/// `bs` is a run of brackets from `b0` in which every bracket but the last
/// was halved to the next one.
pub open spec fn bracket_path<F: Fn(Scalar, Scalar) -> Probe>(
    probe: F,
    tol: Scalar,
    b0: Bracket,
    bs: Seq<Bracket>,
) -> bool {
    &&& bs.len() >= 1
    &&& bs[0] == b0
    &&& forall|i: int|
        0 <= i < bs.len() - 1 ==> probe_continues(probe, tol, #[trigger] bs[i], bs[i + 1])
}

/// What a bisection may end in: the midpoint of a probe that settled a
/// bracket reached within the budget, or `NonConvergence` after `max_iter`
/// probes that kept a half wider than the tolerance.
pub open spec fn bisection_outcome<F: Fn(Scalar, Scalar) -> Probe>(
    probe: F,
    first: Bracket,
    tol: Scalar,
    max_iter: u32,
    r: Result<Scalar, SolveError>,
) -> bool {
    match r {
        Ok(mid) => exists|bs: Seq<Bracket>|
            #[trigger] bracket_path(probe, tol, first, bs) && bs.len() <= max_iter && probe_settles(
                probe,
                tol,
                bs.last(),
                mid,
            ),
        Err(e) => e == SolveError::NonConvergence && exists|bs: Seq<Bracket>|
            #[trigger] bracket_path(probe, tol, first, bs) && bs.len() == max_iter + 1,
    }
}

/// Bisection of the bracket `[lo, hi]`.
///
/// Each probe halves the bracket: the upper bound moves to the midpoint when
/// `f(lo) * f(mid)` is below zero, the lower bound otherwise (a product that is
/// zero or a NaN keeps the upper half). The midpoint of the first probe whose
/// kept half is no wider than `tol` is returned. That the bracket holds a
/// sign change is the caller's concern. After `max_iter` probes that kept a
/// wider half the solve fails with `NonConvergence`.
pub fn bisection<F: Fn(Scalar, Scalar) -> Probe>(
    probe: F,
    lo: Scalar,
    hi: Scalar,
    tol: Scalar,
    max_iter: u32,
) -> (r: Result<Scalar, SolveError>)
    requires
        forall|a: Scalar, b: Scalar| #[trigger] probe.requires((a, b)),
    ensures
        bisection_outcome(probe, (Bracket { lo, hi }), tol, max_iter, r),
{
    let mut b: Bracket = Bracket { lo, hi };
    let mut n: u32 = 0;
    let ghost b0 = b;
    let ghost mut bs: Seq<Bracket> = seq![b];
    while n < max_iter
        invariant
            n <= max_iter,
            forall|a: Scalar, c: Scalar| #[trigger] probe.requires((a, c)),
            b0 == (Bracket { lo, hi }),
            bracket_path(probe, tol, b0, bs),
            bs.len() == n + 1,
            bs.last() == b,
        decreases max_iter - n,
    {
        let p: Probe = probe(b.lo, b.hi);
        let lower: bool = p.product.lt(crate::scalar::zero());
        let width: Scalar = if lower {
            p.lower_width
        } else {
            p.upper_width
        };
        assert(lower == keeps_lower(p));
        assert(width == kept_width(p));
        if width.le(tol) {
            assert(probe_settles(probe, tol, bs.last(), p.mid));
            assert(bracket_path(probe, tol, Bracket { lo, hi }, bs));
            return Ok(p.mid);
        }
        let next: Bracket = if lower {
            Bracket { lo: b.lo, hi: p.mid }
        } else {
            Bracket { lo: p.mid, hi: b.hi }
        };
        proof {
            assert(probe_continues(probe, tol, b, next));
            let ghost prev = bs;
            bs = bs.push(next);
            assert forall|i: int| 0 <= i < bs.len() - 1 implies probe_continues(
                probe,
                tol,
                #[trigger] bs[i],
                bs[i + 1],
            ) by {
                if i < prev.len() - 1 {
                    assert(bs[i] == prev[i]);
                    assert(bs[i + 1] == prev[i + 1]);
                }
            }
        }
        b = next;
        n = n + 1;
    }
    Err(SolveError::NonConvergence)
}

/// Whether a trial gives one result for one iterate.
pub open spec fn single_valued<F: Fn(Scalar) -> Trial>(trial: F) -> bool {
    forall|x: Scalar, a: Trial, b: Trial|
        #![trigger trial.ensures((x,), a), trial.ensures((x,), b)]
        trial.ensures((x,), a) && trial.ensures((x,), b) ==> a == b
}

proof fn trial_paths_agree<F: Fn(Scalar) -> Trial>(
    trial: F,
    tol: Scalar,
    x0: Scalar,
    xs: Seq<Scalar>,
    ys: Seq<Scalar>,
    i: int,
)
    requires
        single_valued(trial),
        trial_path(trial, tol, x0, xs),
        trial_path(trial, tol, x0, ys),
        0 <= i < xs.len(),
        i < ys.len(),
    ensures
        xs[i] == ys[i],
    decreases i,
{
    if i > 0 {
        trial_paths_agree(trial, tol, x0, xs, ys, i - 1);
        assert(trial_rejects(trial, tol, xs[i - 1], xs[i]));
        assert(trial_rejects(trial, tol, ys[i - 1], ys[i]));
    }
}

proof fn trial_paths_end_together<F: Fn(Scalar) -> Trial>(
    trial: F,
    tol: Scalar,
    x0: Scalar,
    xs: Seq<Scalar>,
    ys: Seq<Scalar>,
)
    requires
        single_valued(trial),
        trial_path(trial, tol, x0, xs),
        trial_path(trial, tol, x0, ys),
        trial_accepts(trial, tol, xs.last()),
    ensures
        ys.len() <= xs.len(),
{
    if ys.len() > xs.len() {
        let n = xs.len() - 1;
        trial_paths_agree(trial, tol, x0, xs, ys, n);
        assert(trial_rejects(trial, tol, ys[n], ys[n + 1]));
    }
}

/// A damped fixed-point solve with a single-valued trial has one outcome:
/// the same start, tolerance and budget give the same result.
pub proof fn fixed_point_is_deterministic<F: Fn(Scalar) -> Trial>(
    trial: F,
    x0: Scalar,
    tol: Scalar,
    max_iter: u32,
    first: Result<Scalar, SolveError>,
    second: Result<Scalar, SolveError>,
)
    requires
        single_valued(trial),
        fixed_point_outcome(trial, x0, tol, max_iter, first),
        fixed_point_outcome(trial, x0, tol, max_iter, second),
    ensures
        first == second,
{
    match (first, second) {
        (Ok(x), Ok(y)) => {
            let xs = choose|xs: Seq<Scalar>| #[trigger]
                trial_path(trial, tol, x0, xs) && xs.len() <= max_iter && xs.last() == x
                    && trial_accepts(trial, tol, x);
            let ys = choose|ys: Seq<Scalar>| #[trigger]
                trial_path(trial, tol, x0, ys) && ys.len() <= max_iter && ys.last() == y
                    && trial_accepts(trial, tol, y);
            trial_paths_end_together(trial, tol, x0, xs, ys);
            trial_paths_end_together(trial, tol, x0, ys, xs);
            trial_paths_agree(trial, tol, x0, xs, ys, xs.len() - 1);
        },
        (Ok(x), Err(_)) => {
            let xs = choose|xs: Seq<Scalar>| #[trigger]
                trial_path(trial, tol, x0, xs) && xs.len() <= max_iter && xs.last() == x
                    && trial_accepts(trial, tol, x);
            let ys = choose|ys: Seq<Scalar>| #[trigger]
                trial_path(trial, tol, x0, ys) && ys.len() == max_iter + 1;
            trial_paths_end_together(trial, tol, x0, xs, ys);
        },
        (Err(_), Ok(y)) => {
            let xs = choose|xs: Seq<Scalar>| #[trigger]
                trial_path(trial, tol, x0, xs) && xs.len() == max_iter + 1;
            let ys = choose|ys: Seq<Scalar>| #[trigger]
                trial_path(trial, tol, x0, ys) && ys.len() <= max_iter && ys.last() == y
                    && trial_accepts(trial, tol, y);
            trial_paths_end_together(trial, tol, x0, ys, xs);
        },
        (Err(_), Err(_)) => {},
    }
}

/// Whether a Newton trial gives one result for one iterate.
pub open spec fn newton_single_valued<F: Fn(Scalar) -> NewtonTrial>(trial: F) -> bool {
    forall|x: Scalar, a: NewtonTrial, b: NewtonTrial|
        #![trigger trial.ensures((x,), a), trial.ensures((x,), b)]
        trial.ensures((x,), a) && trial.ensures((x,), b) ==> a == b
}

proof fn newton_paths_agree<F: Fn(Scalar) -> NewtonTrial>(
    trial: F,
    tol: Scalar,
    x0: Scalar,
    xs: Seq<Scalar>,
    ys: Seq<Scalar>,
    i: int,
)
    requires
        newton_single_valued(trial),
        newton_path(trial, tol, x0, xs),
        newton_path(trial, tol, x0, ys),
        0 <= i < xs.len(),
        i < ys.len(),
    ensures
        xs[i] == ys[i],
    decreases i,
{
    if i > 0 {
        newton_paths_agree(trial, tol, x0, xs, ys, i - 1);
        assert(newton_rejects(trial, tol, xs[i - 1], xs[i]));
        assert(newton_rejects(trial, tol, ys[i - 1], ys[i]));
    }
}

proof fn newton_paths_end_together<F: Fn(Scalar) -> NewtonTrial>(
    trial: F,
    tol: Scalar,
    x0: Scalar,
    xs: Seq<Scalar>,
    ys: Seq<Scalar>,
)
    requires
        newton_single_valued(trial),
        newton_path(trial, tol, x0, xs),
        newton_path(trial, tol, x0, ys),
        newton_accepts(trial, tol, xs.last()) || newton_singular(trial, xs.last()),
    ensures
        ys.len() <= xs.len(),
{
    if ys.len() > xs.len() {
        let n = xs.len() - 1;
        newton_paths_agree(trial, tol, x0, xs, ys, n);
        assert(newton_rejects(trial, tol, ys[n], ys[n + 1]));
    }
}

/// The path that witnesses an outcome of a Newton solve, and whether it ends
/// in a stop (an accepted or a singular iterate) or in an exhausted budget.
spec fn newton_witness<F: Fn(Scalar) -> NewtonTrial>(
    trial: F,
    x0: Scalar,
    tol: Scalar,
    max_iter: u32,
    r: Result<Scalar, SolveError>,
) -> Seq<Scalar> {
    match r {
        Ok(x) => choose|xs: Seq<Scalar>| #[trigger]
            newton_path(trial, tol, x0, xs) && xs.len() <= max_iter && xs.last() == x
                && newton_accepts(trial, tol, x),
        Err(SolveError::SingularDerivative) => choose|xs: Seq<Scalar>| #[trigger]
            newton_path(trial, tol, x0, xs) && xs.len() <= max_iter && newton_singular(
                trial,
                xs.last(),
            ),
        _ => choose|xs: Seq<Scalar>| #[trigger]
            newton_path(trial, tol, x0, xs) && xs.len() == max_iter + 1,
    }
}

/// A damped Newton-Raphson solve with a single-valued trial has one
/// outcome: the same start, tolerance and budget give the same result.
pub proof fn newton_is_deterministic<F: Fn(Scalar) -> NewtonTrial>(
    trial: F,
    x0: Scalar,
    tol: Scalar,
    max_iter: u32,
    first: Result<Scalar, SolveError>,
    second: Result<Scalar, SolveError>,
)
    requires
        newton_single_valued(trial),
        newton_outcome(trial, x0, tol, max_iter, first),
        newton_outcome(trial, x0, tol, max_iter, second),
    ensures
        first == second,
{
    let xs = newton_witness(trial, x0, tol, max_iter, first);
    let ys = newton_witness(trial, x0, tol, max_iter, second);
    let first_stops = !(first matches Err(SolveError::NonConvergence));
    let second_stops = !(second matches Err(SolveError::NonConvergence));
    if first_stops {
        newton_paths_end_together(trial, tol, x0, xs, ys);
    }
    if second_stops {
        newton_paths_end_together(trial, tol, x0, ys, xs);
    }
    if first_stops && second_stops {
        newton_paths_agree(trial, tol, x0, xs, ys, xs.len() - 1);
    }
}

/// Whether a probe gives one result for one bracket.
pub open spec fn probe_single_valued<F: Fn(Scalar, Scalar) -> Probe>(probe: F) -> bool {
    forall|lo: Scalar, hi: Scalar, a: Probe, b: Probe|
        #![trigger probe.ensures((lo, hi), a), probe.ensures((lo, hi), b)]
        probe.ensures((lo, hi), a) && probe.ensures((lo, hi), b) ==> a == b
}

proof fn bracket_paths_agree<F: Fn(Scalar, Scalar) -> Probe>(
    probe: F,
    tol: Scalar,
    b0: Bracket,
    xs: Seq<Bracket>,
    ys: Seq<Bracket>,
    i: int,
)
    requires
        probe_single_valued(probe),
        bracket_path(probe, tol, b0, xs),
        bracket_path(probe, tol, b0, ys),
        0 <= i < xs.len(),
        i < ys.len(),
    ensures
        xs[i] == ys[i],
    decreases i,
{
    if i > 0 {
        bracket_paths_agree(probe, tol, b0, xs, ys, i - 1);
        assert(probe_continues(probe, tol, xs[i - 1], xs[i]));
        assert(probe_continues(probe, tol, ys[i - 1], ys[i]));
    }
}

proof fn bracket_paths_end_together<F: Fn(Scalar, Scalar) -> Probe>(
    probe: F,
    tol: Scalar,
    b0: Bracket,
    xs: Seq<Bracket>,
    ys: Seq<Bracket>,
    mid: Scalar,
)
    requires
        probe_single_valued(probe),
        bracket_path(probe, tol, b0, xs),
        bracket_path(probe, tol, b0, ys),
        probe_settles(probe, tol, xs.last(), mid),
    ensures
        ys.len() <= xs.len(),
{
    if ys.len() > xs.len() {
        let n = xs.len() - 1;
        bracket_paths_agree(probe, tol, b0, xs, ys, n);
        assert(probe_continues(probe, tol, ys[n], ys[n + 1]));
    }
}

/// A bisection with a single-valued probe has one outcome: the same
/// bracket, tolerance and budget give the same result.
pub proof fn bisection_is_deterministic<F: Fn(Scalar, Scalar) -> Probe>(
    probe: F,
    first_bracket: Bracket,
    tol: Scalar,
    max_iter: u32,
    first: Result<Scalar, SolveError>,
    second: Result<Scalar, SolveError>,
)
    requires
        probe_single_valued(probe),
        bisection_outcome(probe, first_bracket, tol, max_iter, first),
        bisection_outcome(probe, first_bracket, tol, max_iter, second),
    ensures
        first == second,
{
    match (first, second) {
        (Ok(x), Ok(y)) => {
            let xs = choose|xs: Seq<Bracket>| #[trigger]
                bracket_path(probe, tol, first_bracket, xs) && xs.len() <= max_iter
                    && probe_settles(probe, tol, xs.last(), x);
            let ys = choose|ys: Seq<Bracket>| #[trigger]
                bracket_path(probe, tol, first_bracket, ys) && ys.len() <= max_iter
                    && probe_settles(probe, tol, ys.last(), y);
            bracket_paths_end_together(probe, tol, first_bracket, xs, ys, x);
            bracket_paths_end_together(probe, tol, first_bracket, ys, xs, y);
            bracket_paths_agree(probe, tol, first_bracket, xs, ys, xs.len() - 1);
        },
        (Ok(x), Err(_)) => {
            let xs = choose|xs: Seq<Bracket>| #[trigger]
                bracket_path(probe, tol, first_bracket, xs) && xs.len() <= max_iter
                    && probe_settles(probe, tol, xs.last(), x);
            let ys = choose|ys: Seq<Bracket>| #[trigger]
                bracket_path(probe, tol, first_bracket, ys) && ys.len() == max_iter + 1;
            bracket_paths_end_together(probe, tol, first_bracket, xs, ys, x);
        },
        (Err(_), Ok(y)) => {
            let xs = choose|xs: Seq<Bracket>| #[trigger]
                bracket_path(probe, tol, first_bracket, xs) && xs.len() == max_iter + 1;
            let ys = choose|ys: Seq<Bracket>| #[trigger]
                bracket_path(probe, tol, first_bracket, ys) && ys.len() <= max_iter
                    && probe_settles(probe, tol, ys.last(), y);
            bracket_paths_end_together(probe, tol, first_bracket, ys, xs, y);
        },
        (Err(_), Err(_)) => {},
    }
}

} // verus!
