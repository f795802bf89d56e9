//! A validation run of the horizontal line: the decision tree is walked leaf
//! by leaf, and one segment is taken from construction through a solve.

use vstd::prelude::*;
use crate::error::SolveError;
use crate::horizontal::classify;
use crate::horizontal::Horizontal;
use crate::horizontal::HorizontalRatios;
use crate::regime::Model;
use crate::regime::Regime;
use crate::scalar::Scalar;
use crate::scalar::ZERO_BITS;
use crate::twoline::Inputs;
use crate::twoline::Outputs;
use crate::twoline::Status;
use crate::twoline::TwoPhaseLine;

verus! {

/// The pattern of `2.0`, a ratio well past its curve.
pub const PAST_BITS: u64 = 0x4000_0000_0000_0000;

/// The pattern of `0.5`, a ratio well within its curve.
pub const SHORT_BITS: u64 = 0x3FE0_0000_0000_0000;

/// Validates the horizontal line.
///
/// Classifies one point in each leaf of the decision tree, then takes a
/// segment with stand-in formulas through a solve, a second normalization
/// and a solve whose model does not converge. Every outcome along the way is
/// proved from the contracts of the operations, so the run cannot fail.
pub fn horizontal_validate() {
    let lo = Scalar::from_bits(SHORT_BITS);
    let hi = Scalar::from_bits(PAST_BITS);
    let smooth = classify(HorizontalRatios { a: lo, b: hi, c: lo, d: hi, ee: hi });
    assert(smooth == Regime::HorizontalStratifiedSmoothFlow);
    let wavy = classify(HorizontalRatios { a: lo, b: hi, c: hi, d: hi, ee: hi });
    assert(wavy == Regime::HorizontalStratifiedWavyFlow);
    let annular = classify(HorizontalRatios { a: hi, b: lo, c: hi, d: hi, ee: hi });
    assert(annular == Regime::HorizontalAnnularDispersedFlow);
    let elongated = classify(HorizontalRatios { a: hi, b: hi, c: hi, d: lo, ee: lo });
    assert(elongated == Regime::HorizontalElongatedBubbleFlow);
    let slug = classify(HorizontalRatios { a: hi, b: hi, c: hi, d: lo, ee: hi });
    assert(slug == Regime::HorizontalIntermittentSlugFlow);
    let dispersed = classify(HorizontalRatios { a: hi, b: hi, c: hi, d: hi, ee: hi });
    assert(dispersed == Regime::HorizontalDispersedBubbleFlow);

    let rescale = |i: Inputs| -> (o: Inputs)
        ensures
            o == (Inputs { diameter: hi, ..i }),
        { Inputs { diameter: hi, ..i } };
    let measure = |i: Inputs| -> (o: Result<HorizontalRatios, SolveError>)
        ensures
            o == Ok::<HorizontalRatios, SolveError>(
                HorizontalRatios { a: i.diameter, b: lo, c: hi, d: hi, ee: hi },
            ),
        { Ok(HorizontalRatios { a: i.diameter, b: lo, c: hi, d: hi, ee: hi }) };
    let run = |i: Inputs, m: Model| -> (o: Result<Outputs, SolveError>)
        ensures
            o == Ok::<Outputs, SolveError>(Outputs { holdup: lo, ..Outputs::blank() }),
        { Ok(Outputs { holdup: lo, ..Outputs::zeroed() }) };
    let stall = |i: Inputs, m: Model| -> (o: Result<Outputs, SolveError>)
        ensures
            o == Err::<Outputs, SolveError>(SolveError::DegenerateResult),
        { Err(SolveError::DegenerateResult) };

    let invalid = Horizontal::new(lo, Scalar::from_bits(ZERO_BITS), lo, lo, lo, lo, lo, lo, lo, lo, lo);
    assert(invalid matches Err(e) && e == SolveError::InvalidInput);

    match Horizontal::new(lo, lo, lo, lo, lo, lo, lo, lo, lo, lo, lo) {
        Ok(mut line) => {
            assert(line.state.regime_enum == Regime::NONE);
            let solved = line.model_cal(rescale, measure, run);
            assert(solved is Ok);
            assert(line.state.is_unit_change);
            assert(line.state.inputs.diameter == hi);
            assert(line.state.inputs.liquid_flow == lo);
            assert(line.state.regime_enum == Regime::HorizontalAnnularDispersedFlow);
            assert(line.state.flow_regime@ == Regime::HorizontalAnnularDispersedFlow.name());
            assert(line.state.status == Status::Solved);
            assert(line.state.outputs.holdup == lo);

            let ghost before = line.state;
            line.unit_transfer(rescale);
            assert(line.state == before);

            let stalled = line.model_cal(rescale, measure, stall);
            assert(stalled == Err::<(), SolveError>(SolveError::DegenerateResult));
            assert(line.state.status == Status::Degenerate);
            assert(line.state.outputs.holdup == (Scalar { bits: ZERO_BITS }));
            assert(line.state.regime_enum == Regime::HorizontalAnnularDispersedFlow);
        },
        Err(_) => {
            assert(false);
        },
    }
}

} // verus!
