//! What the regime models share: the tolerance and the budget of their
//! iterations, the step from a solved unknown to the outputs, and the
//! similarity-analysis model, which two orientations run.

use vstd::prelude::*;
use crate::error::SolveError;
use crate::kernels::damped_fixed_point;
use crate::kernels::fixed_point_outcome;
use crate::kernels::Trial;
use crate::scalar::Scalar;
use crate::twoline::Outputs;

verus! {

/// The pattern of `1e-4`, the tolerance of the model iterations.
pub const TOLERANCE_BITS: u64 = 0x3F1A_36E2_EB1C_432D;

/// The pattern of `0.5`, the first guess of a holdup or a void fraction.
pub const HALF_BITS: u64 = 0x3FE0_0000_0000_0000;

/// The number of trials that an iteration may use.
pub const TRIAL_BUDGET: u32 = 100;

/// The pattern of `10.0`, the value of the similarity group at which the
/// holdup correlation changes its polynomial.
pub const GROUP_LIMIT_BITS: u64 = 0x4024_0000_0000_0000;

/// The tolerance of the model iterations, `1e-4`.
pub open spec fn tolerance() -> Scalar {
    Scalar { bits: TOLERANCE_BITS }
}

/// The first guess of a holdup or a void fraction, `0.5`.
pub open spec fn half() -> Scalar {
    Scalar { bits: HALF_BITS }
}

/// The step from a solve to the outputs: a solved unknown is handed to
/// `finish`, whose result is the model's; a failed solve is handed on.
pub open spec fn finishes<F: Fn(Scalar) -> Result<Outputs, SolveError>>(
    finish: F,
    solved: Result<Scalar, SolveError>,
    r: Result<Outputs, SolveError>,
) -> bool {
    match solved {
        Ok(x) => finish.ensures((x,), r),
        Err(e) => r == Err::<Outputs, SolveError>(e),
    }
}

/// Hands a solved unknown to `finish`, and a failure on.
pub fn finish_with<F: Fn(Scalar) -> Result<Outputs, SolveError>>(
    finish: F,
    solved: Result<Scalar, SolveError>,
) -> (r: Result<Outputs, SolveError>)
    requires
        forall|x: Scalar| #[trigger] finish.requires((x,)),
    ensures
        finishes(finish, solved, r),
{
    match solved {
        Ok(x) => finish(x),
        Err(e) => Err(e),
    }
}

/// Whether the similarity group `z` is on the branch of the low polynomial:
/// below ten.
pub open spec fn low_group(z: Scalar) -> bool {
    z.below(Scalar { bits: GROUP_LIMIT_BITS })
}

/// The holdup factor `K` of the similarity analysis at the group `z`. The
/// correlation is piecewise: below ten it is the cubic that `low` computes,
/// from ten on the quadratic that `high` computes. A group that is a NaN
/// goes to `high`.
pub fn holdup_factor<L: Fn(Scalar) -> Scalar, H: Fn(Scalar) -> Scalar>(
    z: Scalar,
    low: L,
    high: H,
) -> (k: Scalar)
    requires
        forall|x: Scalar| #[trigger] low.requires((x,)),
        forall|x: Scalar| #[trigger] high.requires((x,)),
    ensures
        if low_group(z) {
            low.ensures((z,), k)
        } else {
            high.ensures((z,), k)
        },
{
    if z.lt(Scalar::from_bits(GROUP_LIMIT_BITS)) {
        low(z)
    } else {
        high(z)
    }
}

/// What the similarity-analysis model may end in: what `finish` makes of a
/// gas holdup which the damped fixed point from `0.5` accepted within
/// tolerance `1e-4` and 100 trials, or `DegenerateResult` when that iteration
/// did not converge.
pub open spec fn similarity_outcome<T: Fn(Scalar) -> Trial, F: Fn(Scalar) -> Result<Outputs, SolveError>>(
    trial: T,
    finish: F,
    r: Result<Outputs, SolveError>,
) -> bool {
    exists|solved: Result<Scalar, SolveError>| #[trigger]
        fixed_point_outcome(trial, half(), tolerance(), TRIAL_BUDGET, solved) && match solved {
            Ok(holdup) => finish.ensures((holdup,), r),
            Err(_) => r == Err::<Outputs, SolveError>(SolveError::DegenerateResult),
        }
}

/// The similarity-analysis model of annular and dispersed flow.
///
/// `trial` is one damped trial of the gas-holdup correlation and `finish`
/// derives the outputs from the converged gas holdup. When the holdup does
/// not converge the model stops without deriving anything and reports
/// `DegenerateResult`; in particular it does so whenever no trial can meet
/// the tolerance.
pub fn similarity_analysis<T: Fn(Scalar) -> Trial, F: Fn(Scalar) -> Result<Outputs, SolveError>>(
    trial: T,
    finish: F,
) -> (r: Result<Outputs, SolveError>)
    requires
        forall|x: Scalar| #[trigger] trial.requires((x,)),
        forall|x: Scalar| #[trigger] finish.requires((x,)),
    ensures
        similarity_outcome(trial, finish, r),
        (forall|x: Scalar, t: Trial| #[trigger] trial.ensures((x,), t) ==> !t.gap.at_most(tolerance()))
            ==> r == Err::<Outputs, SolveError>(SolveError::DegenerateResult),
{
    let solved = damped_fixed_point(
        trial,
        Scalar::from_bits(HALF_BITS),
        Scalar::from_bits(TOLERANCE_BITS),
        TRIAL_BUDGET,
    );
    assert(fixed_point_outcome(trial, half(), tolerance(), TRIAL_BUDGET, solved));
    match solved {
        Ok(holdup) => finish(holdup),
        Err(_) => Err(SolveError::DegenerateResult),
    }
}

} // verus!
