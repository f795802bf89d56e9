//! Vertical-upward segments: the boundary ratios and their decision tree,
//! the guard on the bubble-to-slug curve, the slug-and-churn and bubble
//! models, and the line that sequences them.

use vstd::prelude::*;
use crate::error::SolveError;
use crate::kernels::damped_fixed_point;
use crate::kernels::damped_newton_raphson;
use crate::kernels::fixed_point_outcome;
use crate::kernels::newton_outcome;
use crate::kernels::NewtonTrial;
use crate::kernels::Trial;
use crate::models::finish_with;
use crate::models::finishes;
use crate::models::half;
use crate::models::tolerance;
use crate::models::HALF_BITS;
use crate::models::TOLERANCE_BITS;
use crate::models::TRIAL_BUDGET;
use crate::regime::model_for;
use crate::regime::Model;
use crate::regime::Orientation;
use crate::regime::Regime;
use crate::scalar::Scalar;
use crate::twoline::classifies;
use crate::twoline::fresh;
use crate::twoline::normalizes;
use crate::twoline::settles;
use crate::twoline::Inputs;
use crate::twoline::Outputs;
use crate::twoline::ProcessState;
use crate::twoline::TwoPhaseLine;

verus! {

/// The pattern of `0.1`, the first guess of the Taylor-bubble void fraction.
pub const TENTH_BITS: u64 = 0x3FB9_9999_9999_999A;

/// The boundary ratios of a vertical-upward segment: each is the actual
/// superficial velocity over the velocity on a transition curve.
#[derive(Clone, Copy, Debug)]
pub struct VerticalUpRatios {
    /// Bubble to slug transition; `None` when the curve gave no finite
    /// velocity.
    pub a: Option<Scalar>,
    /// Transition to finely dispersed bubbles.
    pub b: Scalar,
    /// Slug to churn transition.
    pub c: Scalar,
    /// Churn to annular transition.
    pub e: Scalar,
}

/// The velocity on the bubble-to-slug curve, if it is usable: a NaN or an
/// infinity is no velocity to divide by.
pub fn curve_a_guard(velocity: Scalar) -> (r: Option<Scalar>)
    ensures
        r == (if velocity.finite() {
            Some(velocity)
        } else {
            None::<Scalar>
        }),
{
    if velocity.is_finite() {
        Some(velocity)
    } else {
        None
    }
}

/// Whether the ratio to the bubble-to-slug curve is within unity. A missing
/// ratio counts as zero, which is.
pub open spec fn curve_a_within(a: Option<Scalar>) -> bool {
    match a {
        Some(ratio) => ratio.within_unity(),
        None => true,
    }
}

/// Whether the ratio to the bubble-to-slug curve is above unity. A missing
/// ratio counts as zero, which is not.
pub open spec fn curve_a_above(a: Option<Scalar>) -> bool {
    match a {
        Some(ratio) => ratio.above_unity(),
        None => false,
    }
}

/// The decision tree of vertical-upward flow: annular first, by the
/// churn-to-annular curve alone; then bubble against slug and churn; finely
/// dispersed bubbles are what is left.
pub open spec fn vertical_up_regime(ratios: VerticalUpRatios) -> Regime {
    if ratios.e.above_unity() {
        Regime::VerticalUpAnnularFlow
    } else if curve_a_within(ratios.a) && ratios.b.within_unity() {
        Regime::VerticalUpBubbleFlow
    } else if curve_a_above(ratios.a) && ratios.b.within_unity() {
        Regime::VerticalUpSlugAndChurnFlow
    } else if curve_a_above(ratios.a) && ratios.c.above_unity() {
        Regime::VerticalUpSlugAndChurnFlow
    } else {
        Regime::VerticalUpFinelyDispersedBubbleFlow
    }
}

/// Selects the regime of a vertical-upward segment from its boundary ratios.
/// The result is always one of the four vertical-upward tags.
pub fn classify(ratios: VerticalUpRatios) -> (regime: Regime)
    ensures
        regime == vertical_up_regime(ratios),
        regime.owner() == Some(Orientation::VerticalUp),
{
    let a_within = match ratios.a {
        Some(ratio) => ratio.is_within_unity(),
        None => true,
    };
    let a_above = match ratios.a {
        Some(ratio) => ratio.is_above_unity(),
        None => false,
    };
    if ratios.e.is_above_unity() {
        Regime::VerticalUpAnnularFlow
    } else if a_within && ratios.b.is_within_unity() {
        Regime::VerticalUpBubbleFlow
    } else if a_above && ratios.b.is_within_unity() {
        Regime::VerticalUpSlugAndChurnFlow
    } else if a_above && ratios.c.is_above_unity() {
        Regime::VerticalUpSlugAndChurnFlow
    } else {
        Regime::VerticalUpFinelyDispersedBubbleFlow
    }
}

/// A vertical-upward segment is annular exactly when its ratio to the
/// churn-to-annular curve is above unity, whatever the liquid-dependent
/// ratios are.
pub proof fn annular_iff_above_curve_e(ratios: VerticalUpRatios)
    ensures
        ratios.e.above_unity() <==> vertical_up_regime(ratios) == Regime::VerticalUpAnnularFlow,
{
}

/// The first guess of the Taylor-bubble void fraction, `0.1`.
pub open spec fn tenth() -> Scalar {
    Scalar { bits: TENTH_BITS }
}

/// The slug-and-churn model: the void fraction of the Taylor bubble is the
/// damped Newton-Raphson root from `0.1` to `1e-4` within 100 trials, and
/// `finish` derives the outputs from it. A singular derivative and a root
/// that is not found are reported as they are.
pub fn slug_model<T: Fn(Scalar) -> NewtonTrial, F: Fn(Scalar) -> Result<Outputs, SolveError>>(
    trial: T,
    finish: F,
) -> (r: Result<Outputs, SolveError>)
    requires
        forall|x: Scalar| #[trigger] trial.requires((x,)),
        forall|x: Scalar| #[trigger] finish.requires((x,)),
    ensures
        exists|void: Result<Scalar, SolveError>| #[trigger]
            newton_outcome(trial, tenth(), tolerance(), TRIAL_BUDGET, void) && finishes(
                finish,
                void,
                r,
            ),
{
    let void = damped_newton_raphson(
        trial,
        Scalar::from_bits(TENTH_BITS),
        Scalar::from_bits(TOLERANCE_BITS),
        TRIAL_BUDGET,
    );
    assert(newton_outcome(trial, tenth(), tolerance(), TRIAL_BUDGET, void));
    finish_with(finish, void)
}

/// The bubble model: the gas void fraction is the damped fixed point from
/// `0.5` to `1e-4` within 100 trials, and `finish` derives the outputs from
/// it. A void fraction that does not converge is reported as
/// `NonConvergence`.
pub fn bubble_model<T: Fn(Scalar) -> Trial, F: Fn(Scalar) -> Result<Outputs, SolveError>>(
    trial: T,
    finish: F,
) -> (r: Result<Outputs, SolveError>)
    requires
        forall|x: Scalar| #[trigger] trial.requires((x,)),
        forall|x: Scalar| #[trigger] finish.requires((x,)),
    ensures
        exists|void: Result<Scalar, SolveError>| #[trigger]
            fixed_point_outcome(trial, half(), tolerance(), TRIAL_BUDGET, void) && finishes(
                finish,
                void,
                r,
            ),
{
    let void = damped_fixed_point(
        trial,
        Scalar::from_bits(HALF_BITS),
        Scalar::from_bits(TOLERANCE_BITS),
        TRIAL_BUDGET,
    );
    assert(fixed_point_outcome(trial, half(), tolerance(), TRIAL_BUDGET, void));
    finish_with(finish, void)
}

/// A vertical-upward segment.
#[derive(Debug)]
pub struct VerticalUp {
    pub state: ProcessState,
}

impl VerticalUp {
    /// A line for the given inputs, fresh and in engineering units. Inputs
    /// whose flow rates, densities or diameter are not greater than zero are
    /// refused with `InvalidInput`.
    pub fn new(
        liquid_flow: Scalar,
        vapor_flow: Scalar,
        liquid_density: Scalar,
        vapor_density: Scalar,
        liquid_viscosity: Scalar,
        vapor_viscosity: Scalar,
        surface_tension: Scalar,
        roughness: Scalar,
        safety_factor: Scalar,
        diameter: Scalar,
        inclination: Scalar,
    ) -> (r: Result<Self, SolveError>)
        ensures
            match r {
                Ok(line) => fresh(
                    (Inputs {
                        liquid_flow,
                        vapor_flow,
                        liquid_density,
                        vapor_density,
                        liquid_viscosity,
                        vapor_viscosity,
                        surface_tension,
                        roughness,
                        safety_factor,
                        diameter,
                        inclination,
                    }),
                    line.state,
                ) && line.state.inputs.valid(),
                Err(e) => e == SolveError::InvalidInput && !(Inputs {
                    liquid_flow,
                    vapor_flow,
                    liquid_density,
                    vapor_density,
                    liquid_viscosity,
                    vapor_viscosity,
                    surface_tension,
                    roughness,
                    safety_factor,
                    diameter,
                    inclination,
                }).valid(),
            },
    {
        let inputs = Inputs {
            liquid_flow,
            vapor_flow,
            liquid_density,
            vapor_density,
            liquid_viscosity,
            vapor_viscosity,
            surface_tension,
            roughness,
            safety_factor,
            diameter,
            inclination,
        };
        if !inputs.is_valid() {
            return Err(SolveError::InvalidInput);
        }
        Ok(VerticalUp { state: ProcessState::new(inputs) })
    }
}

impl TwoPhaseLine for VerticalUp {
    type Ratios = VerticalUpRatios;

    open spec fn state(&self) -> ProcessState {
        self.state
    }

    open spec fn orientation() -> Orientation {
        Orientation::VerticalUp
    }

    open spec fn regime_of(ratios: VerticalUpRatios) -> Regime {
        vertical_up_regime(ratios)
    }

    proof fn regime_is_owned(ratios: VerticalUpRatios) {
    }

    fn unit_transfer<S: Fn(Inputs) -> Inputs>(&mut self, rescale: S) {
        if !self.state.is_unit_change {
            let scaled = rescale(self.state.inputs);
            self.state.inputs = scaled;
            self.state.is_unit_change = true;
        }
    }

    fn flow_regime<S: Fn(Inputs) -> Inputs, M: Fn(Inputs) -> Result<VerticalUpRatios, SolveError>>(
        &mut self,
        rescale: S,
        measure: M,
    ) -> (r: Result<(), SolveError>) {
        self.unit_transfer(rescale);
        let ghost mid = self.state;
        let measured = measure(self.state.inputs);
        assert(normalizes(rescale, old(self).state, mid));
        assert(measure.ensures((mid.inputs,), measured));
        match measured {
            Ok(ratios) => {
                let regime = classify(ratios);
                self.state.record(regime);
                Ok(())
            },
            Err(e) => Err(e),
        }
    }

    fn model_cal<
        S: Fn(Inputs) -> Inputs,
        M: Fn(Inputs) -> Result<VerticalUpRatios, SolveError>,
        U: Fn(Inputs, Model) -> Result<Outputs, SolveError>,
    >(&mut self, rescale: S, measure: M, run: U) -> (r: Result<(), SolveError>) {
        let tagged = self.flow_regime(rescale, measure);
        let ghost mid = self.state;
        let result = match tagged {
            Err(e) => Err(e),
            Ok(_) => match model_for(Orientation::VerticalUp, self.state.regime_enum) {
                Err(e) => Err(e),
                Ok(model) => run(self.state.inputs, model),
            },
        };
        let r = self.state.settle(result);
        proof {
            let tree = |ratios: VerticalUpRatios| Self::regime_of(ratios);
            assert(classifies(rescale, measure, tree, old(self).state, mid, tagged));
            assert(settles(mid, result, self.state));
        }
        r
    }
}

} // verus!
