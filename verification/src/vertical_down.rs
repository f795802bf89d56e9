//! Vertical-downward segments: the boundary ratios and their decision tree,
//! the solves behind them, the annular and slug models, and the line that
//! sequences them.

use vstd::prelude::*;
use crate::error::SolveError;
use crate::kernels::damped_fixed_point;
use crate::kernels::damped_newton_raphson;
use crate::kernels::fixed_point_outcome;
use crate::kernels::newton_outcome;
use crate::kernels::NewtonTrial;
use crate::kernels::Trial;
use crate::models::finish_with;
use crate::models::finishes;
use crate::models::half;
use crate::models::tolerance;
use crate::models::HALF_BITS;
use crate::models::TOLERANCE_BITS;
use crate::models::TRIAL_BUDGET;
use crate::regime::model_for;
use crate::regime::Model;
use crate::regime::Orientation;
use crate::regime::Regime;
use crate::scalar::Scalar;
use crate::twoline::classifies;
use crate::twoline::fresh;
use crate::twoline::normalizes;
use crate::twoline::settles;
use crate::twoline::Inputs;
use crate::twoline::Outputs;
use crate::twoline::ProcessState;
use crate::twoline::TwoPhaseLine;

verus! {

/// The pattern of `0.001`, the tolerance of the film-velocity solve.
pub const FILM_TOLERANCE_BITS: u64 = 0x3F50_624D_D2F1_A9FC;

/// The pattern of `1e-6`, the tolerance of the mixture-velocity solve.
pub const MIXTURE_TOLERANCE_BITS: u64 = 0x3EB0_C6F7_A0B5_ED8D;

/// The pattern of `0.75`, the largest liquid holdup of downward slug flow.
pub const SLUG_HOLDUP_LIMIT_BITS: u64 = 0x3FE8_0000_0000_0000;

/// What classifies a vertical-downward segment: four boundary ratios, each
/// the actual liquid velocity over the velocity on a transition curve, and
/// the diameter beside its critical value.
#[derive(Clone, Copy, Debug)]
pub struct VerticalDownRatios {
    /// Annular transition.
    pub a: Scalar,
    /// Slug to dispersed-bubble transition of wide pipes.
    pub b: Scalar,
    /// Slug to dispersed-bubble transition by turbulent break-up.
    pub c: Scalar,
    /// Slug transition by bubble packing.
    pub d: Scalar,
    /// Inside diameter, m.
    pub diameter: Scalar,
    /// The diameter up to which the wide-pipe curve does not apply, m.
    pub critical_diameter: Scalar,
}

/// The decision tree of vertical-downward flow. A ratio of exactly one stays
/// on the stable side of its curve. The wide-pipe curve is asked only when
/// the diameter is above the critical one.
pub open spec fn vertical_down_regime(ratios: VerticalDownRatios) -> Regime {
    if ratios.a.within_unity() {
        Regime::VerticalDownAnnularFlow
    } else if ratios.d.within_unity() || ratios.c.within_unity() {
        Regime::VerticalDownSlugFlow
    } else if !ratios.diameter.at_most(ratios.critical_diameter) && ratios.b.within_unity() {
        Regime::VerticalDownSlugFlow
    } else {
        Regime::VerticalDownDispersedBubbleFlow
    }
}

/// Selects the regime of a vertical-downward segment. The result is always
/// one of the three vertical-downward tags.
pub fn classify(ratios: VerticalDownRatios) -> (regime: Regime)
    ensures
        regime == vertical_down_regime(ratios),
        regime.owner() == Some(Orientation::VerticalDown),
{
    if ratios.a.is_within_unity() {
        Regime::VerticalDownAnnularFlow
    } else if ratios.diameter.le(ratios.critical_diameter) {
        if ratios.d.is_within_unity() {
            Regime::VerticalDownSlugFlow
        } else if ratios.c.is_within_unity() {
            Regime::VerticalDownSlugFlow
        } else {
            Regime::VerticalDownDispersedBubbleFlow
        }
    } else if ratios.d.is_within_unity() {
        Regime::VerticalDownSlugFlow
    } else if ratios.c.is_within_unity() {
        Regime::VerticalDownSlugFlow
    } else if ratios.b.is_within_unity() {
        Regime::VerticalDownSlugFlow
    } else {
        Regime::VerticalDownDispersedBubbleFlow
    }
}

/// A vertical-downward segment is annular exactly when its ratio to the
/// annular curve is within unity.
pub proof fn annular_iff_within_curve_a(ratios: VerticalDownRatios)
    ensures
        ratios.a.within_unity() <==> vertical_down_regime(ratios)
            == Regime::VerticalDownAnnularFlow,
{
}

/// The tolerance of the film-velocity solve, `0.001`.
pub open spec fn film_tolerance() -> Scalar {
    Scalar { bits: FILM_TOLERANCE_BITS }
}

/// The tolerance of the mixture-velocity solve, `1e-6`.
pub open spec fn mixture_tolerance() -> Scalar {
    Scalar { bits: MIXTURE_TOLERANCE_BITS }
}

/// The actual liquid velocity in the annular film: the damped
/// Newton-Raphson root from `start` to `0.001` within 100 trials.
pub fn film_velocity<T: Fn(Scalar) -> NewtonTrial>(trial: T, start: Scalar) -> (r: Result<
    Scalar,
    SolveError,
>)
    requires
        forall|x: Scalar| #[trigger] trial.requires((x,)),
    ensures
        newton_outcome(trial, start, film_tolerance(), TRIAL_BUDGET, r),
{
    damped_newton_raphson(trial, start, Scalar::from_bits(FILM_TOLERANCE_BITS), TRIAL_BUDGET)
}

/// The mixture velocity on the turbulent break-up curve: the fixed point
/// from `start` to `1e-6` within 100 trials.
pub fn mixture_velocity_on_curve_c<T: Fn(Scalar) -> Trial>(trial: T, start: Scalar) -> (r: Result<
    Scalar,
    SolveError,
>)
    requires
        forall|x: Scalar| #[trigger] trial.requires((x,)),
    ensures
        fixed_point_outcome(trial, start, mixture_tolerance(), TRIAL_BUDGET, r),
{
    damped_fixed_point(trial, start, Scalar::from_bits(MIXTURE_TOLERANCE_BITS), TRIAL_BUDGET)
}

/// What the two solves behind the boundary ratios may end in: a film
/// velocity and a mixture velocity, or the failure of the film solve, or,
/// that one done, the failure of the mixture solve.
pub open spec fn velocities_outcome<T: Fn(Scalar) -> NewtonTrial, C: Fn(Scalar) -> Trial>(
    film_trial: T,
    film_start: Scalar,
    mixture_trial: C,
    mixture_start: Scalar,
    r: Result<(Scalar, Scalar), SolveError>,
) -> bool {
    exists|film: Result<Scalar, SolveError>| #[trigger]
        newton_outcome(film_trial, film_start, film_tolerance(), TRIAL_BUDGET, film) && match film {
            Err(e) => r == Err::<(Scalar, Scalar), SolveError>(e),
            Ok(ul) => exists|mixture: Result<Scalar, SolveError>| #[trigger]
                fixed_point_outcome(
                    mixture_trial,
                    mixture_start,
                    mixture_tolerance(),
                    TRIAL_BUDGET,
                    mixture,
                ) && match mixture {
                    Err(e) => r == Err::<(Scalar, Scalar), SolveError>(e),
                    Ok(um) => r == Ok::<(Scalar, Scalar), SolveError>((ul, um)),
                },
        }
}

/// The boundary ratios of a vertical-downward segment: the film velocity is
/// solved, then the mixture velocity on the break-up curve, and `at`
/// computes the ratios from the two. The first solve that fails is reported.
pub fn boundary_ratios<
    T: Fn(Scalar) -> NewtonTrial,
    C: Fn(Scalar) -> Trial,
    B: Fn(Scalar, Scalar) -> VerticalDownRatios,
>(film_trial: T, film_start: Scalar, mixture_trial: C, mixture_start: Scalar, at: B) -> (r: Result<
    VerticalDownRatios,
    SolveError,
>)
    requires
        forall|x: Scalar| #[trigger] film_trial.requires((x,)),
        forall|x: Scalar| #[trigger] mixture_trial.requires((x,)),
        forall|x: Scalar, y: Scalar| #[trigger] at.requires((x, y)),
    ensures
        exists|solved: Result<(Scalar, Scalar), SolveError>| #[trigger]
            velocities_outcome(film_trial, film_start, mixture_trial, mixture_start, solved)
                && match solved {
                Ok((ul, um)) => r matches Ok(ratios) && at.ensures((ul, um), ratios),
                Err(e) => r == Err::<VerticalDownRatios, SolveError>(e),
            },
{
    let film = film_velocity(film_trial, film_start);
    let ul = match film {
        Ok(ul) => ul,
        Err(e) => {
            assert(velocities_outcome(
                film_trial,
                film_start,
                mixture_trial,
                mixture_start,
                Err::<(Scalar, Scalar), SolveError>(e),
            ));
            return Err(e);
        },
    };
    let mixture = mixture_velocity_on_curve_c(mixture_trial, mixture_start);
    match mixture {
        Ok(um) => {
            assert(velocities_outcome(
                film_trial,
                film_start,
                mixture_trial,
                mixture_start,
                Ok::<(Scalar, Scalar), SolveError>((ul, um)),
            ));
            Ok(at(ul, um))
        },
        Err(e) => {
            assert(velocities_outcome(
                film_trial,
                film_start,
                mixture_trial,
                mixture_start,
                Err::<(Scalar, Scalar), SolveError>(e),
            ));
            Err(e)
        },
    }
}

/// The annular model: the liquid holdup is the Newton-Raphson root from
/// `0.5` to `1e-4` within 100 trials, and `finish` derives the outputs from
/// it. The holdup is not clamped: a singular derivative and a root that is
/// not found are reported as they are.
pub fn annular_model<T: Fn(Scalar) -> NewtonTrial, F: Fn(Scalar) -> Result<Outputs, SolveError>>(
    trial: T,
    finish: F,
) -> (r: Result<Outputs, SolveError>)
    requires
        forall|x: Scalar| #[trigger] trial.requires((x,)),
        forall|x: Scalar| #[trigger] finish.requires((x,)),
    ensures
        exists|holdup: Result<Scalar, SolveError>| #[trigger]
            newton_outcome(trial, half(), tolerance(), TRIAL_BUDGET, holdup) && finishes(
                finish,
                holdup,
                r,
            ),
{
    let holdup = damped_newton_raphson(
        trial,
        Scalar::from_bits(HALF_BITS),
        Scalar::from_bits(TOLERANCE_BITS),
        TRIAL_BUDGET,
    );
    assert(newton_outcome(trial, half(), tolerance(), TRIAL_BUDGET, holdup));
    finish_with(finish, holdup)
}

/// The liquid holdup of downward slug flow: the drift-flux value, but no
/// more than `0.75`. A NaN passes through.
pub open spec fn limited_holdup(holdup: Scalar) -> Scalar {
    let limit = Scalar { bits: SLUG_HOLDUP_LIMIT_BITS };
    if limit.below(holdup) {
        limit
    } else {
        holdup
    }
}

/// The slug model: the drift-flux holdup is limited to `0.75` and `finish`
/// derives the outputs from the limited value.
pub fn slug_model<F: Fn(Scalar) -> Result<Outputs, SolveError>>(
    holdup: Scalar,
    finish: F,
) -> (r: Result<Outputs, SolveError>)
    requires
        forall|x: Scalar| #[trigger] finish.requires((x,)),
    ensures
        finish.ensures((limited_holdup(holdup),), r),
{
    let limit = Scalar::from_bits(SLUG_HOLDUP_LIMIT_BITS);
    if holdup.gt(limit) {
        finish(limit)
    } else {
        finish(holdup)
    }
}

/// A vertical-downward segment.
#[derive(Debug)]
pub struct VerticalDown {
    pub state: ProcessState,
}

impl VerticalDown {
    /// A line for the given inputs, fresh and in engineering units. Inputs
    /// whose flow rates, densities or diameter are not greater than zero are
    /// refused with `InvalidInput`.
    pub fn new(
        liquid_flow: Scalar,
        vapor_flow: Scalar,
        liquid_density: Scalar,
        vapor_density: Scalar,
        liquid_viscosity: Scalar,
        vapor_viscosity: Scalar,
        surface_tension: Scalar,
        roughness: Scalar,
        safety_factor: Scalar,
        diameter: Scalar,
        inclination: Scalar,
    ) -> (r: Result<Self, SolveError>)
        ensures
            match r {
                Ok(line) => fresh(
                    (Inputs {
                        liquid_flow,
                        vapor_flow,
                        liquid_density,
                        vapor_density,
                        liquid_viscosity,
                        vapor_viscosity,
                        surface_tension,
                        roughness,
                        safety_factor,
                        diameter,
                        inclination,
                    }),
                    line.state,
                ) && line.state.inputs.valid(),
                Err(e) => e == SolveError::InvalidInput && !(Inputs {
                    liquid_flow,
                    vapor_flow,
                    liquid_density,
                    vapor_density,
                    liquid_viscosity,
                    vapor_viscosity,
                    surface_tension,
                    roughness,
                    safety_factor,
                    diameter,
                    inclination,
                }).valid(),
            },
    {
        let inputs = Inputs {
            liquid_flow,
            vapor_flow,
            liquid_density,
            vapor_density,
            liquid_viscosity,
            vapor_viscosity,
            surface_tension,
            roughness,
            safety_factor,
            diameter,
            inclination,
        };
        if !inputs.is_valid() {
            return Err(SolveError::InvalidInput);
        }
        Ok(VerticalDown { state: ProcessState::new(inputs) })
    }
}

impl TwoPhaseLine for VerticalDown {
    type Ratios = VerticalDownRatios;

    open spec fn state(&self) -> ProcessState {
        self.state
    }

    open spec fn orientation() -> Orientation {
        Orientation::VerticalDown
    }

    open spec fn regime_of(ratios: VerticalDownRatios) -> Regime {
        vertical_down_regime(ratios)
    }

    proof fn regime_is_owned(ratios: VerticalDownRatios) {
    }

    fn unit_transfer<S: Fn(Inputs) -> Inputs>(&mut self, rescale: S) {
        if !self.state.is_unit_change {
            let scaled = rescale(self.state.inputs);
            self.state.inputs = scaled;
            self.state.is_unit_change = true;
        }
    }

    fn flow_regime<S: Fn(Inputs) -> Inputs, M: Fn(Inputs) -> Result<VerticalDownRatios, SolveError>>(
        &mut self,
        rescale: S,
        measure: M,
    ) -> (r: Result<(), SolveError>) {
        self.unit_transfer(rescale);
        let ghost mid = self.state;
        let measured = measure(self.state.inputs);
        assert(normalizes(rescale, old(self).state, mid));
        assert(measure.ensures((mid.inputs,), measured));
        match measured {
            Ok(ratios) => {
                let regime = classify(ratios);
                self.state.record(regime);
                Ok(())
            },
            Err(e) => Err(e),
        }
    }

    fn model_cal<
        S: Fn(Inputs) -> Inputs,
        M: Fn(Inputs) -> Result<VerticalDownRatios, SolveError>,
        U: Fn(Inputs, Model) -> Result<Outputs, SolveError>,
    >(&mut self, rescale: S, measure: M, run: U) -> (r: Result<(), SolveError>) {
        let tagged = self.flow_regime(rescale, measure);
        let ghost mid = self.state;
        let result = match tagged {
            Err(e) => Err(e),
            Ok(_) => match model_for(Orientation::VerticalDown, self.state.regime_enum) {
                Err(e) => Err(e),
                Ok(model) => run(self.state.inputs, model),
            },
        };
        let r = self.state.settle(result);
        proof {
            let tree = |ratios: VerticalDownRatios| Self::regime_of(ratios);
            assert(classifies(rescale, measure, tree, old(self).state, mid, tagged));
            assert(settles(mid, result, self.state));
        }
        r
    }
}

} // verus!
