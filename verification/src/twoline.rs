//! The state of one pipe segment and the three operations that every
//! orientation offers on it: unit normalization, regime classification and
//! the solve that runs the matching model.

use vstd::prelude::*;
use crate::error::SolveError;
use crate::regime::matching_model;
use crate::regime::Model;
use crate::regime::Orientation;
use crate::regime::Regime;
use crate::scalar::Scalar;
use crate::scalar::ZERO_BITS;

verus! {

/// The process data of a segment. Until unit normalization the quantities are
/// in engineering units; afterwards the viscosities, the surface tension, the
/// roughness, the diameter and the inclination are in SI.
#[derive(Clone, Copy, Debug)]
pub struct Inputs {
    /// Liquid mass flow rate, kg/hr.
    pub liquid_flow: Scalar,
    /// Vapor mass flow rate, kg/hr.
    pub vapor_flow: Scalar,
    /// Liquid density, kg/m3.
    pub liquid_density: Scalar,
    /// Vapor density, kg/m3.
    pub vapor_density: Scalar,
    /// Liquid viscosity, cP before normalization.
    pub liquid_viscosity: Scalar,
    /// Vapor viscosity, cP before normalization.
    pub vapor_viscosity: Scalar,
    /// Liquid surface tension, dyne/cm before normalization.
    pub surface_tension: Scalar,
    /// Absolute roughness of the pipe, mm before normalization.
    pub roughness: Scalar,
    /// Safety factor on the frictional loss.
    pub safety_factor: Scalar,
    /// Inside diameter of the pipe, inch before normalization.
    pub diameter: Scalar,
    /// Inclination, degree before normalization.
    pub inclination: Scalar,
}

impl Inputs {
    /// Whether both flow rates, both densities and the diameter are greater
    /// than zero.
    pub open spec fn valid(self) -> bool {
        &&& self.liquid_flow.positive()
        &&& self.vapor_flow.positive()
        &&& self.liquid_density.positive()
        &&& self.vapor_density.positive()
        &&& self.diameter.positive()
    }

    /// Whether both flow rates, both densities and the diameter are greater
    /// than zero.
    pub fn is_valid(&self) -> (r: bool)
        ensures
            r == self.valid(),
    {
        self.liquid_flow.is_positive() && self.vapor_flow.is_positive()
            && self.liquid_density.is_positive() && self.vapor_density.is_positive()
            && self.diameter.is_positive()
    }
}

/// What a regime model produces. A model fills the fields that it defines and
/// leaves the others at zero.
#[derive(Clone, Copy, Debug)]
pub struct Outputs {
    /// Liquid volume fraction of the pipe.
    pub holdup: Scalar,
    /// No-slip liquid volume fraction.
    pub liquid_fraction: Scalar,
    /// Two-phase density, kg/m3.
    pub two_phase_density: Scalar,
    /// No-slip density, kg/m3.
    pub no_slip_density: Scalar,
    /// Density of the liquid slug, kg/m3.
    pub slug_density: Scalar,
    /// Density of the slug unit, kg/m3.
    pub slug_unit_density: Scalar,
    /// Two-phase velocity, m/s.
    pub two_phase_velocity: Scalar,
    /// Liquid velocity, m/s.
    pub liquid_velocity: Scalar,
    /// Vapor velocity, m/s.
    pub vapor_velocity: Scalar,
    /// Velocity of the liquid slug, m/s.
    pub slug_velocity: Scalar,
    /// Frictional pressure loss, kgf/cm2 per 100 m.
    pub friction_loss: Scalar,
    /// Elevation pressure loss, kgf/cm2 per 100 m.
    pub elevation_loss: Scalar,
    /// Acceleration pressure loss, kgf/cm2 per 100 m.
    pub acceleration_loss: Scalar,
    /// One velocity head, kgf/cm2.
    pub velocity_head: Scalar,
    /// Erosion factor.
    pub erosion_factor: Scalar,
    /// Length of the liquid slug, m.
    pub slug_length: Scalar,
    /// Length of the slug unit, m.
    pub slug_unit_length: Scalar,
    /// Length over which slug flow stabilizes, m.
    pub entrance_length: Scalar,
    /// Liquid depth from the bottom of the pipe, m.
    pub liquid_depth: Scalar,
}

impl Outputs {
    /// The outputs with every field at zero.
    pub open spec fn blank() -> Outputs {
        let z = Scalar { bits: ZERO_BITS };
        Outputs {
            holdup: z,
            liquid_fraction: z,
            two_phase_density: z,
            no_slip_density: z,
            slug_density: z,
            slug_unit_density: z,
            two_phase_velocity: z,
            liquid_velocity: z,
            vapor_velocity: z,
            slug_velocity: z,
            friction_loss: z,
            elevation_loss: z,
            acceleration_loss: z,
            velocity_head: z,
            erosion_factor: z,
            slug_length: z,
            slug_unit_length: z,
            entrance_length: z,
            liquid_depth: z,
        }
    }

    /// Whether every field is a finite number.
    pub open spec fn finite(self) -> bool {
        &&& self.holdup.finite()
        &&& self.liquid_fraction.finite()
        &&& self.two_phase_density.finite()
        &&& self.no_slip_density.finite()
        &&& self.slug_density.finite()
        &&& self.slug_unit_density.finite()
        &&& self.two_phase_velocity.finite()
        &&& self.liquid_velocity.finite()
        &&& self.vapor_velocity.finite()
        &&& self.slug_velocity.finite()
        &&& self.friction_loss.finite()
        &&& self.elevation_loss.finite()
        &&& self.acceleration_loss.finite()
        &&& self.velocity_head.finite()
        &&& self.erosion_factor.finite()
        &&& self.slug_length.finite()
        &&& self.slug_unit_length.finite()
        &&& self.entrance_length.finite()
        &&& self.liquid_depth.finite()
    }

    /// Whether every field is a finite number.
    pub fn is_finite(&self) -> (r: bool)
        ensures
            r == self.finite(),
    {
        self.holdup.is_finite()
            && self.liquid_fraction.is_finite()
            && self.two_phase_density.is_finite()
            && self.no_slip_density.is_finite()
            && self.slug_density.is_finite()
            && self.slug_unit_density.is_finite()
            && self.two_phase_velocity.is_finite()
            && self.liquid_velocity.is_finite()
            && self.vapor_velocity.is_finite()
            && self.slug_velocity.is_finite()
            && self.friction_loss.is_finite()
            && self.elevation_loss.is_finite()
            && self.acceleration_loss.is_finite()
            && self.velocity_head.is_finite()
            && self.erosion_factor.is_finite()
            && self.slug_length.is_finite()
            && self.slug_unit_length.is_finite()
            && self.entrance_length.is_finite()
            && self.liquid_depth.is_finite()
    }

    /// The outputs with every field at zero.
    pub fn zeroed() -> (r: Outputs)
        ensures
            r == Outputs::blank(),
    {
        let z = crate::scalar::zero();
        Outputs {
            holdup: z,
            liquid_fraction: z,
            two_phase_density: z,
            no_slip_density: z,
            slug_density: z,
            slug_unit_density: z,
            two_phase_velocity: z,
            liquid_velocity: z,
            vapor_velocity: z,
            slug_velocity: z,
            friction_loss: z,
            elevation_loss: z,
            acceleration_loss: z,
            velocity_head: z,
            erosion_factor: z,
            slug_length: z,
            slug_unit_length: z,
            entrance_length: z,
            liquid_depth: z,
        }
    }
}

/// How far the outputs of a segment can be relied on.
#[derive(Clone, Copy, Debug, PartialEq, Eq, Structural)]
pub enum Status {
    /// No model has produced the outputs.
    Unsolved,
    /// The outputs are those of a converged model.
    Solved,
    /// The model failed to converge; the holdup is the placeholder zero and
    /// is no physical result.
    Degenerate,
}

/// Everything that is known of one segment.
#[derive(Debug)]
pub struct ProcessState {
    pub inputs: Inputs,
    /// The regime of the last classification, `NONE` before the first.
    pub regime_enum: Regime,
    /// The canonical name of `regime_enum`.
    pub flow_regime: String,
    pub outputs: Outputs,
    pub status: Status,
    /// Whether the inputs have been brought to SI units.
    pub is_unit_change: bool,
}

/// A freshly constructed state: the given inputs as they came, no regime, no
/// outputs, units not yet normalized.
pub open spec fn fresh(inputs: Inputs, state: ProcessState) -> bool {
    &&& state.inputs == inputs
    &&& state.regime_enum == Regime::NONE
    &&& state.flow_regime@ == Regime::NONE.name()
    &&& state.outputs == Outputs::blank()
    &&& state.status == Status::Unsolved
    &&& !state.is_unit_change
}

/// How unit normalization changes a state: a normalized state stays as it
/// is; otherwise the inputs are replaced by what `rescale` makes of them, the
/// flag is set and nothing else changes.
pub open spec fn normalizes<S: Fn(Inputs) -> Inputs>(
    rescale: S,
    before: ProcessState,
    after: ProcessState,
) -> bool {
    if before.is_unit_change {
        after == before
    } else {
        &&& rescale.ensures((before.inputs,), after.inputs)
        &&& after == (ProcessState { inputs: after.inputs, is_unit_change: true, ..before })
    }
}

/// Normalizing twice is normalizing once: whatever formula the second
/// normalization is handed, it leaves the state that the first one made.
pub proof fn normalizing_twice_is_once<S: Fn(Inputs) -> Inputs, T: Fn(Inputs) -> Inputs>(
    first: S,
    second: T,
    start: ProcessState,
    once: ProcessState,
    twice: ProcessState,
)
    requires
        normalizes(first, start, once),
        normalizes(second, once, twice),
    ensures
        once.is_unit_change,
        twice == once,
{
}

/// How a classification is recorded: the tag and its canonical name replace
/// the earlier ones and nothing else changes.
pub open spec fn records(before: ProcessState, regime: Regime, after: ProcessState) -> bool {
    &&& after.flow_regime@ == regime.name()
    &&& after == (ProcessState {
        regime_enum: regime,
        flow_regime: after.flow_regime,
        ..before
    })
}

/// What a model's result counts as: outputs with a NaN or an infinity in
/// them are no result but a `DegenerateResult`; everything else counts as it
/// is.
pub open spec fn screened(result: Result<Outputs, SolveError>) -> Result<Outputs, SolveError> {
    match result {
        Ok(outputs) => if outputs.finite() {
            result
        } else {
            Err(SolveError::DegenerateResult)
        },
        Err(_) => result,
    }
}

/// How the result of a model is stored, once screened. A success replaces
/// the outputs and marks them solved. `DegenerateResult` sets the holdup to
/// the placeholder zero, leaves the other outputs alone and marks the state
/// degenerate. Any other failure leaves the outputs alone and marks the state
/// unsolved.
pub open spec fn settles(
    before: ProcessState,
    result: Result<Outputs, SolveError>,
    after: ProcessState,
) -> bool {
    match screened(result) {
        Ok(outputs) => after == (ProcessState { outputs, status: Status::Solved, ..before }),
        Err(SolveError::DegenerateResult) => after == (ProcessState {
            outputs: Outputs { holdup: Scalar { bits: ZERO_BITS }, ..before.outputs },
            status: Status::Degenerate,
            ..before
        }),
        Err(_) => after == (ProcessState { status: Status::Unsolved, ..before }),
    }
}

/// What a solve reports for the result of its model.
pub open spec fn report(result: Result<Outputs, SolveError>) -> Result<(), SolveError> {
    match screened(result) {
        Ok(_) => Ok(()),
        Err(e) => Err(e),
    }
}

/// Outputs that are marked solved hold no NaN and no infinity, and a
/// degenerate state holds the placeholder holdup.
pub proof fn solved_outputs_are_finite(
    before: ProcessState,
    result: Result<Outputs, SolveError>,
    after: ProcessState,
)
    requires
        settles(before, result, after),
    ensures
        after.status == Status::Solved ==> after.outputs.finite(),
        after.status == Status::Solved <==> report(result) is Ok,
        after.status == Status::Degenerate <==> report(result) == Err::<(), SolveError>(
            SolveError::DegenerateResult,
        ),
        after.status == Status::Degenerate ==> after.outputs.holdup == (Scalar { bits: ZERO_BITS }),
        after.inputs == before.inputs,
        after.regime_enum == before.regime_enum,
{
}

impl ProcessState {
    /// A fresh state for the given inputs.
    pub fn new(inputs: Inputs) -> (state: ProcessState)
        ensures
            fresh(inputs, state),
    {
        ProcessState {
            inputs,
            regime_enum: Regime::NONE,
            flow_regime: Regime::NONE.label().to_owned(),
            outputs: Outputs::zeroed(),
            status: Status::Unsolved,
            is_unit_change: false,
        }
    }

    /// Records a classification.
    pub fn record(&mut self, regime: Regime)
        ensures
            records(*old(self), regime, *final(self)),
    {
        self.regime_enum = regime;
        self.flow_regime = regime.label().to_owned();
    }

    /// Screens the result of a model, stores it and reports it.
    pub fn settle(&mut self, result: Result<Outputs, SolveError>) -> (r: Result<(), SolveError>)
        ensures
            settles(*old(self), result, *final(self)),
            r == report(result),
    {
        let screened = match result {
            Ok(outputs) => if outputs.is_finite() {
                Ok(outputs)
            } else {
                Err(SolveError::DegenerateResult)
            },
            Err(e) => Err(e),
        };
        match screened {
            Ok(outputs) => {
                self.outputs = outputs;
                self.status = Status::Solved;
                Ok(())
            },
            Err(SolveError::DegenerateResult) => {
                self.outputs.holdup = crate::scalar::zero();
                self.status = Status::Degenerate;
                Err(SolveError::DegenerateResult)
            },
            Err(e) => {
                self.status = Status::Unsolved;
                Err(e)
            },
        }
    }
}

/// The report of an operation that succeeded.
pub open spec fn done() -> Result<(), SolveError> {
    Ok(())
}

/// How a classification changes a state: the units are normalized first;
/// then `measure` is asked for the boundary ratios of the normalized inputs.
/// Ratios are turned into a tag by `tree` and recorded; a failure of `measure`
/// is handed on and leaves the normalized state as it is.
pub open spec fn classifies<B, S: Fn(Inputs) -> Inputs, M: Fn(Inputs) -> Result<B, SolveError>>(
    rescale: S,
    measure: M,
    tree: spec_fn(B) -> Regime,
    before: ProcessState,
    after: ProcessState,
    r: Result<(), SolveError>,
) -> bool {
    exists|mid: ProcessState, measured: Result<B, SolveError>|
        #![trigger normalizes(rescale, before, mid), measure.ensures((mid.inputs,), measured)]
        {
            &&& normalizes(rescale, before, mid)
            &&& measure.ensures((mid.inputs,), measured)
            &&& match measured {
                Ok(ratios) => records(mid, tree(ratios), after) && r == done(),
                Err(e) => after == mid && r == Err::<(), SolveError>(e),
            }
        }
}

/// How a solve changes a state: the segment is classified; the model that
/// the orientation runs for the tag is asked of `run` on the normalized
/// inputs, and its result is stored. A failed classification, or a tag
/// without a model in this orientation, is stored as the failure that it is.
pub open spec fn solves<
    B,
    S: Fn(Inputs) -> Inputs,
    M: Fn(Inputs) -> Result<B, SolveError>,
    U: Fn(Inputs, Model) -> Result<Outputs, SolveError>,
>(
    rescale: S,
    measure: M,
    run: U,
    tree: spec_fn(B) -> Regime,
    orientation: Orientation,
    before: ProcessState,
    after: ProcessState,
    r: Result<(), SolveError>,
) -> bool {
    exists|mid: ProcessState, tagged: Result<(), SolveError>, result: Result<Outputs, SolveError>|
        #![trigger classifies(rescale, measure, tree, before, mid, tagged), settles(mid, result, after)]
        {
            &&& classifies(rescale, measure, tree, before, mid, tagged)
            &&& settles(mid, result, after)
            &&& r == report(result)
            &&& match tagged {
                Err(e) => result == Err::<Outputs, SolveError>(e),
                Ok(_) => match matching_model(orientation, mid.regime_enum) {
                    None => result == Err::<Outputs, SolveError>(SolveError::NoMatchingModel),
                    Some(model) => run.ensures((mid.inputs, model), result),
                },
            }
        }
}

/// Whether a formula of one argument gives one result for one argument.
pub open spec fn single_valued<A, B, F: Fn(A) -> B>(formula: F) -> bool {
    forall|a: A, x: B, y: B|
        #![trigger formula.ensures((a,), x), formula.ensures((a,), y)]
        formula.ensures((a,), x) && formula.ensures((a,), y) ==> x == y
}

/// Whether a model evaluation gives one result for one pair of inputs and
/// model.
pub open spec fn single_valued_run<U: Fn(Inputs, Model) -> Result<Outputs, SolveError>>(
    run: U,
) -> bool {
    forall|i: Inputs, m: Model, x: Result<Outputs, SolveError>, y: Result<Outputs, SolveError>|
        #![trigger run.ensures((i, m), x), run.ensures((i, m), y)]
        run.ensures((i, m), x) && run.ensures((i, m), y) ==> x == y
}

/// Whether two states say the same of their segment.
pub open spec fn agree(a: ProcessState, b: ProcessState) -> bool {
    &&& a.inputs == b.inputs
    &&& a.regime_enum == b.regime_enum
    &&& a.flow_regime@ == b.flow_regime@
    &&& a.outputs == b.outputs
    &&& a.status == b.status
    &&& a.is_unit_change == b.is_unit_change
}

/// Classification is repeatable: with single-valued formulas, two
/// classifications of one state report the same and end in states that
/// agree.
pub proof fn classification_is_deterministic<
    B,
    S: Fn(Inputs) -> Inputs,
    M: Fn(Inputs) -> Result<B, SolveError>,
>(
    rescale: S,
    measure: M,
    tree: spec_fn(B) -> Regime,
    before: ProcessState,
    first: ProcessState,
    first_report: Result<(), SolveError>,
    second: ProcessState,
    second_report: Result<(), SolveError>,
)
    requires
        single_valued(rescale),
        single_valued(measure),
        classifies(rescale, measure, tree, before, first, first_report),
        classifies(rescale, measure, tree, before, second, second_report),
    ensures
        first_report == second_report,
        agree(first, second),
{
    let (mid1, measured1) = choose|mid: ProcessState, measured: Result<B, SolveError>|
        #![trigger normalizes(rescale, before, mid), measure.ensures((mid.inputs,), measured)]
        {
            &&& normalizes(rescale, before, mid)
            &&& measure.ensures((mid.inputs,), measured)
            &&& match measured {
                Ok(ratios) => records(mid, tree(ratios), first) && first_report == done(),
                Err(e) => first == mid && first_report == Err::<(), SolveError>(e),
            }
        };
    let (mid2, measured2) = choose|mid: ProcessState, measured: Result<B, SolveError>|
        #![trigger normalizes(rescale, before, mid), measure.ensures((mid.inputs,), measured)]
        {
            &&& normalizes(rescale, before, mid)
            &&& measure.ensures((mid.inputs,), measured)
            &&& match measured {
                Ok(ratios) => records(mid, tree(ratios), second) && second_report == done(),
                Err(e) => second == mid && second_report == Err::<(), SolveError>(e),
            }
        };
    assert(mid1.inputs == mid2.inputs);
    assert(mid1 == mid2);
    assert(measured1 == measured2);
}

/// A solve is repeatable: with single-valued formulas, two solves of one
/// state report the same and end in states that agree.
pub proof fn solve_is_deterministic<
    B,
    S: Fn(Inputs) -> Inputs,
    M: Fn(Inputs) -> Result<B, SolveError>,
    U: Fn(Inputs, Model) -> Result<Outputs, SolveError>,
>(
    rescale: S,
    measure: M,
    run: U,
    tree: spec_fn(B) -> Regime,
    orientation: Orientation,
    before: ProcessState,
    first: ProcessState,
    first_report: Result<(), SolveError>,
    second: ProcessState,
    second_report: Result<(), SolveError>,
)
    requires
        single_valued(rescale),
        single_valued(measure),
        single_valued_run(run),
        solves(rescale, measure, run, tree, orientation, before, first, first_report),
        solves(rescale, measure, run, tree, orientation, before, second, second_report),
    ensures
        first_report == second_report,
        agree(first, second),
{
    let (mid1, tagged1, result1) = choose|
        mid: ProcessState,
        tagged: Result<(), SolveError>,
        result: Result<Outputs, SolveError>,
    |
        #![trigger classifies(rescale, measure, tree, before, mid, tagged), settles(mid, result, first)]
        {
            &&& classifies(rescale, measure, tree, before, mid, tagged)
            &&& settles(mid, result, first)
            &&& first_report == report(result)
            &&& match tagged {
                Err(e) => result == Err::<Outputs, SolveError>(e),
                Ok(_) => match matching_model(orientation, mid.regime_enum) {
                    None => result == Err::<Outputs, SolveError>(SolveError::NoMatchingModel),
                    Some(model) => run.ensures((mid.inputs, model), result),
                },
            }
        };
    let (mid2, tagged2, result2) = choose|
        mid: ProcessState,
        tagged: Result<(), SolveError>,
        result: Result<Outputs, SolveError>,
    |
        #![trigger classifies(rescale, measure, tree, before, mid, tagged), settles(mid, result, second)]
        {
            &&& classifies(rescale, measure, tree, before, mid, tagged)
            &&& settles(mid, result, second)
            &&& second_report == report(result)
            &&& match tagged {
                Err(e) => result == Err::<Outputs, SolveError>(e),
                Ok(_) => match matching_model(orientation, mid.regime_enum) {
                    None => result == Err::<Outputs, SolveError>(SolveError::NoMatchingModel),
                    Some(model) => run.ensures((mid.inputs, model), result),
                },
            }
        };
    classification_is_deterministic(rescale, measure, tree, before, mid1, tagged1, mid2, tagged2);
    assert(result1 == result2);
}

/// The operations that every orientation offers on its segment.
///
/// The formulas that need real arithmetic are handed to each operation:
/// `rescale` brings inputs to SI units, `measure` computes the boundary
/// ratios of normalized inputs, and `run` evaluates a model on normalized
/// inputs.
pub trait TwoPhaseLine: Sized {
    /// The boundary ratios that classify a segment of this orientation.
    type Ratios;

    /// The state of the segment.
    spec fn state(&self) -> ProcessState;

    /// The orientation of the segment.
    spec fn orientation() -> Orientation;

    /// The decision tree of the orientation.
    spec fn regime_of(ratios: Self::Ratios) -> Regime;

    /// Whatever the ratios are, the decision tree selects one of the
    /// orientation's own tags, never `NONE`.
    proof fn regime_is_owned(ratios: Self::Ratios)
        ensures
            Self::regime_of(ratios).owner() == Some(Self::orientation()),
    ;

    /// Brings the inputs to SI units, once: on a normalized line nothing
    /// changes at all, so a second call leaves what the first one made.
    fn unit_transfer<S: Fn(Inputs) -> Inputs>(&mut self, rescale: S)
        requires
            forall|i: Inputs| #[trigger] rescale.requires((i,)),
        ensures
            normalizes(rescale, old(self).state(), final(self).state()),
            final(self).state().is_unit_change,
            old(self).state().is_unit_change ==> *final(self) == *old(self),
    ;

    /// Classifies the segment, normalizing its units first if that is still
    /// due. On success the tag is one of the orientation's own, never `NONE`.
    fn flow_regime<S: Fn(Inputs) -> Inputs, M: Fn(Inputs) -> Result<Self::Ratios, SolveError>>(
        &mut self,
        rescale: S,
        measure: M,
    ) -> (r: Result<(), SolveError>)
        requires
            forall|i: Inputs| #[trigger] rescale.requires((i,)),
            forall|i: Inputs| #[trigger] measure.requires((i,)),
        ensures
            classifies(
                rescale,
                measure,
                |ratios: Self::Ratios| Self::regime_of(ratios),
                old(self).state(),
                final(self).state(),
                r,
            ),
            final(self).state().is_unit_change,
            r is Ok ==> final(self).state().regime_enum.owner() == Some(Self::orientation()),
    ;

    /// Normalizes if that is still due, classifies, and runs the model of the
    /// regime. The status tells what became of the outputs: solved exactly on
    /// success, degenerate exactly on `DegenerateResult`, unsolved on every
    /// other failure.
    fn model_cal<
        S: Fn(Inputs) -> Inputs,
        M: Fn(Inputs) -> Result<Self::Ratios, SolveError>,
        U: Fn(Inputs, Model) -> Result<Outputs, SolveError>,
    >(&mut self, rescale: S, measure: M, run: U) -> (r: Result<(), SolveError>)
        requires
            forall|i: Inputs| #[trigger] rescale.requires((i,)),
            forall|i: Inputs| #[trigger] measure.requires((i,)),
            forall|i: Inputs, m: Model| #[trigger] run.requires((i, m)),
        ensures
            solves(
                rescale,
                measure,
                run,
                |ratios: Self::Ratios| Self::regime_of(ratios),
                Self::orientation(),
                old(self).state(),
                final(self).state(),
                r,
            ),
            final(self).state().is_unit_change,
            r is Ok <==> final(self).state().status == Status::Solved,
            r == Err::<(), SolveError>(SolveError::DegenerateResult) <==> final(self).state().status == Status::Degenerate,
            final(self).state().status == Status::Degenerate ==> final(self).state().outputs.holdup
                == (Scalar { bits: ZERO_BITS }),
            final(self).state().status == Status::Solved ==> final(self).state().outputs.finite(),
    ;
}

} // verus!
