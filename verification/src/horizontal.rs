//! Horizontal segments: the boundary ratios and their decision tree, the
//! equilibrium liquid level, the stratified and slug models, and the line
//! that sequences them.

use vstd::prelude::*;
use crate::error::SolveError;
use crate::kernels::bisection;
use crate::kernels::bisection_outcome;
use crate::kernels::damped_fixed_point;
use crate::kernels::fixed_point_outcome;
use crate::kernels::Bracket;
use crate::kernels::Probe;
use crate::kernels::Trial;
use crate::models::finish_with;
use crate::models::finishes;
use crate::models::tolerance;
use crate::models::TOLERANCE_BITS;
use crate::models::TRIAL_BUDGET;
use crate::regime::model_for;
use crate::regime::Model;
use crate::regime::Orientation;
use crate::regime::Regime;
use crate::scalar::Scalar;
use crate::twoline::classifies;
use crate::twoline::fresh;
use crate::twoline::normalizes;
use crate::twoline::settles;
use crate::twoline::Inputs;
use crate::twoline::Outputs;
use crate::twoline::ProcessState;
use crate::twoline::TwoPhaseLine;

verus! {

/// The pattern of `0.001`, the lowest dimensionless liquid level searched.
pub const LEVEL_LOW_BITS: u64 = 0x3F50_624D_D2F1_A9FC;

/// The pattern of `0.999`, the highest dimensionless liquid level searched.
pub const LEVEL_HIGH_BITS: u64 = 0x3FEF_F7CE_D916_872B;

/// The bracket in which the equilibrium liquid level is searched.
pub open spec fn level_bracket() -> Bracket {
    Bracket { lo: Scalar { bits: LEVEL_LOW_BITS }, hi: Scalar { bits: LEVEL_HIGH_BITS } }
}

/// The boundary ratios of a horizontal segment: each is the actual value over
/// the value on a transition curve.
#[derive(Clone, Copy, Debug)]
pub struct HorizontalRatios {
    /// Stratified to non-stratified transition.
    pub a: Scalar,
    /// Annular-dispersed to intermittent transition.
    pub b: Scalar,
    /// Smooth to wavy transition.
    pub c: Scalar,
    /// Intermittent to dispersed-bubble transition.
    pub d: Scalar,
    /// Elongated-bubble to slug transition.
    pub ee: Scalar,
}

/// The decision tree of horizontal flow. A ratio of exactly one stays on the
/// stable side of its curve; a NaN counts as past the curve.
pub open spec fn horizontal_regime(ratios: HorizontalRatios) -> Regime {
    if ratios.a.within_unity() {
        if ratios.c.within_unity() {
            Regime::HorizontalStratifiedSmoothFlow
        } else {
            Regime::HorizontalStratifiedWavyFlow
        }
    } else if ratios.b.within_unity() {
        Regime::HorizontalAnnularDispersedFlow
    } else if ratios.d.within_unity() {
        if ratios.ee.within_unity() {
            Regime::HorizontalElongatedBubbleFlow
        } else {
            Regime::HorizontalIntermittentSlugFlow
        }
    } else {
        Regime::HorizontalDispersedBubbleFlow
    }
}

/// Selects the regime of a horizontal segment from its boundary ratios. The
/// result is always one of the six horizontal tags.
pub fn classify(ratios: HorizontalRatios) -> (regime: Regime)
    ensures
        regime == horizontal_regime(ratios),
        regime.owner() == Some(Orientation::Horizontal),
{
    if ratios.a.is_within_unity() {
        if ratios.c.is_within_unity() {
            Regime::HorizontalStratifiedSmoothFlow
        } else {
            Regime::HorizontalStratifiedWavyFlow
        }
    } else if ratios.b.is_within_unity() {
        Regime::HorizontalAnnularDispersedFlow
    } else if ratios.d.is_within_unity() {
        if ratios.ee.is_within_unity() {
            Regime::HorizontalElongatedBubbleFlow
        } else {
            Regime::HorizontalIntermittentSlugFlow
        }
    } else {
        Regime::HorizontalDispersedBubbleFlow
    }
}

/// A horizontal segment is stratified exactly while its ratio to the
/// stratified boundary is within unity: once the ratio has passed one, no
/// value of the other ratios brings a stratified regime back.
pub proof fn stratified_iff_within_boundary(ratios: HorizontalRatios)
    ensures
        ratios.a.within_unity() <==> horizontal_regime(ratios).model() == Some(Model::Stratified),
{
}

/// The equilibrium liquid level, as a fraction of the diameter: bisection of
/// `[0.001, 0.999]` to a width of `1e-4` within 100 probes.
pub fn liquid_level<P: Fn(Scalar, Scalar) -> Probe>(probe: P) -> (r: Result<Scalar, SolveError>)
    requires
        forall|a: Scalar, b: Scalar| #[trigger] probe.requires((a, b)),
    ensures
        bisection_outcome(probe, level_bracket(), tolerance(), TRIAL_BUDGET, r),
{
    bisection(
        probe,
        Scalar::from_bits(LEVEL_LOW_BITS),
        Scalar::from_bits(LEVEL_HIGH_BITS),
        Scalar::from_bits(TOLERANCE_BITS),
        TRIAL_BUDGET,
    )
}

/// The boundary ratios of a horizontal segment: the equilibrium liquid level
/// is solved and `at_level` computes the ratios at that level. A level that
/// is not found is reported as `NonConvergence`.
pub fn boundary_ratios<P: Fn(Scalar, Scalar) -> Probe, B: Fn(Scalar) -> HorizontalRatios>(
    probe: P,
    at_level: B,
) -> (r: Result<HorizontalRatios, SolveError>)
    requires
        forall|a: Scalar, b: Scalar| #[trigger] probe.requires((a, b)),
        forall|x: Scalar| #[trigger] at_level.requires((x,)),
    ensures
        exists|level: Result<Scalar, SolveError>| #[trigger]
            bisection_outcome(probe, level_bracket(), tolerance(), TRIAL_BUDGET, level)
                && match level {
                Ok(h) => r matches Ok(ratios) && at_level.ensures((h,), ratios),
                Err(e) => r == Err::<HorizontalRatios, SolveError>(e),
            },
{
    let level = liquid_level(probe);
    match level {
        Ok(h) => Ok(at_level(h)),
        Err(e) => Err(e),
    }
}

/// The stratified model: the equilibrium liquid level is solved anew and
/// `finish` derives the outputs from it. A level that is not found is
/// reported as `NonConvergence`.
pub fn stratified<P: Fn(Scalar, Scalar) -> Probe, F: Fn(Scalar) -> Result<Outputs, SolveError>>(
    probe: P,
    finish: F,
) -> (r: Result<Outputs, SolveError>)
    requires
        forall|a: Scalar, b: Scalar| #[trigger] probe.requires((a, b)),
        forall|x: Scalar| #[trigger] finish.requires((x,)),
    ensures
        exists|level: Result<Scalar, SolveError>| #[trigger]
            bisection_outcome(probe, level_bracket(), tolerance(), TRIAL_BUDGET, level) && finishes(
                finish,
                level,
                r,
            ),
{
    let level = liquid_level(probe);
    finish_with(finish, level)
}

/// The horizontal slug model: the holdup at the end of the liquid film is
/// the damped fixed point from `start` to `1e-4` within 100 trials, and
/// `finish` derives the outputs from it. A film holdup that does not
/// converge is reported as `NonConvergence`.
pub fn slug_model<T: Fn(Scalar) -> Trial, F: Fn(Scalar) -> Result<Outputs, SolveError>>(
    trial: T,
    start: Scalar,
    finish: F,
) -> (r: Result<Outputs, SolveError>)
    requires
        forall|x: Scalar| #[trigger] trial.requires((x,)),
        forall|x: Scalar| #[trigger] finish.requires((x,)),
    ensures
        exists|film: Result<Scalar, SolveError>| #[trigger]
            fixed_point_outcome(trial, start, tolerance(), TRIAL_BUDGET, film) && finishes(
                finish,
                film,
                r,
            ),
{
    let film = damped_fixed_point(trial, start, Scalar::from_bits(TOLERANCE_BITS), TRIAL_BUDGET);
    assert(fixed_point_outcome(trial, start, tolerance(), TRIAL_BUDGET, film));
    finish_with(finish, film)
}

/// A horizontal segment.
#[derive(Debug)]
pub struct Horizontal {
    pub state: ProcessState,
}

impl Horizontal {
    /// A line for the given inputs, fresh and in engineering units. Inputs
    /// whose flow rates, densities or diameter are not greater than zero are
    /// refused with `InvalidInput`.
    pub fn new(
        liquid_flow: Scalar,
        vapor_flow: Scalar,
        liquid_density: Scalar,
        vapor_density: Scalar,
        liquid_viscosity: Scalar,
        vapor_viscosity: Scalar,
        surface_tension: Scalar,
        roughness: Scalar,
        safety_factor: Scalar,
        diameter: Scalar,
        inclination: Scalar,
    ) -> (r: Result<Self, SolveError>)
        ensures
            match r {
                Ok(line) => fresh(
                    (Inputs {
                        liquid_flow,
                        vapor_flow,
                        liquid_density,
                        vapor_density,
                        liquid_viscosity,
                        vapor_viscosity,
                        surface_tension,
                        roughness,
                        safety_factor,
                        diameter,
                        inclination,
                    }),
                    line.state,
                ) && line.state.inputs.valid(),
                Err(e) => e == SolveError::InvalidInput && !(Inputs {
                    liquid_flow,
                    vapor_flow,
                    liquid_density,
                    vapor_density,
                    liquid_viscosity,
                    vapor_viscosity,
                    surface_tension,
                    roughness,
                    safety_factor,
                    diameter,
                    inclination,
                }).valid(),
            },
    {
        let inputs = Inputs {
            liquid_flow,
            vapor_flow,
            liquid_density,
            vapor_density,
            liquid_viscosity,
            vapor_viscosity,
            surface_tension,
            roughness,
            safety_factor,
            diameter,
            inclination,
        };
        if !inputs.is_valid() {
            return Err(SolveError::InvalidInput);
        }
        Ok(Horizontal { state: ProcessState::new(inputs) })
    }
}

impl TwoPhaseLine for Horizontal {
    type Ratios = HorizontalRatios;

    open spec fn state(&self) -> ProcessState {
        self.state
    }

    open spec fn orientation() -> Orientation {
        Orientation::Horizontal
    }

    open spec fn regime_of(ratios: HorizontalRatios) -> Regime {
        horizontal_regime(ratios)
    }

    proof fn regime_is_owned(ratios: HorizontalRatios) {
    }

    fn unit_transfer<S: Fn(Inputs) -> Inputs>(&mut self, rescale: S) {
        if !self.state.is_unit_change {
            let scaled = rescale(self.state.inputs);
            self.state.inputs = scaled;
            self.state.is_unit_change = true;
        }
    }

    fn flow_regime<S: Fn(Inputs) -> Inputs, M: Fn(Inputs) -> Result<HorizontalRatios, SolveError>>(
        &mut self,
        rescale: S,
        measure: M,
    ) -> (r: Result<(), SolveError>) {
        self.unit_transfer(rescale);
        let ghost mid = self.state;
        let measured = measure(self.state.inputs);
        assert(normalizes(rescale, old(self).state, mid));
        assert(measure.ensures((mid.inputs,), measured));
        match measured {
            Ok(ratios) => {
                let regime = classify(ratios);
                self.state.record(regime);
                Ok(())
            },
            Err(e) => Err(e),
        }
    }

    fn model_cal<
        S: Fn(Inputs) -> Inputs,
        M: Fn(Inputs) -> Result<HorizontalRatios, SolveError>,
        U: Fn(Inputs, Model) -> Result<Outputs, SolveError>,
    >(&mut self, rescale: S, measure: M, run: U) -> (r: Result<(), SolveError>) {
        let tagged = self.flow_regime(rescale, measure);
        let ghost mid = self.state;
        let result = match tagged {
            Err(e) => Err(e),
            Ok(_) => match model_for(Orientation::Horizontal, self.state.regime_enum) {
                Err(e) => Err(e),
                Ok(model) => run(self.state.inputs, model),
            },
        };
        let r = self.state.settle(result);
        proof {
            let tree = |ratios: HorizontalRatios| Self::regime_of(ratios);
            assert(classifies(rescale, measure, tree, old(self).state, mid, tagged));
            assert(settles(mid, result, self.state));
        }
        r
    }
}

} // verus!
