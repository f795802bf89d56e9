//! The failures that a calculation can report.

use vstd::prelude::*;

verus! {

/// Why a calculation did not produce a result.
#[derive(Clone, Copy, Debug, PartialEq, Eq, Structural)]
pub enum SolveError {
    /// A flow rate, a density or the diameter is not a positive finite number.
    InvalidInput,
    /// A Reynolds number handed to the friction factor is not a positive
    /// finite number.
    InvalidReynolds,
    /// A Newton-Raphson step met a derivative too close to zero to divide by.
    SingularDerivative,
    /// An iterative solve used up its budget of trials.
    NonConvergence,
    /// The regime tag has no model in the orientation that was asked.
    NoMatchingModel,
    /// A model ended on a placeholder because its defining iteration failed.
    DegenerateResult,
}

impl SolveError {
    /// The name of the failure.
    pub open spec fn name(self) -> Seq<char> {
        match self {
            SolveError::InvalidInput => "InvalidInput"@,
            SolveError::InvalidReynolds => "InvalidReynolds"@,
            SolveError::SingularDerivative => "SingularDerivative"@,
            SolveError::NonConvergence => "NonConvergence"@,
            SolveError::NoMatchingModel => "NoMatchingModel"@,
            SolveError::DegenerateResult => "DegenerateResult"@,
        }
    }

    /// The name of the failure, for messages.
    pub fn message(&self) -> (s: &'static str)
        ensures
            s@ == self.name(),
    {
        match self {
            SolveError::InvalidInput => "InvalidInput",
            SolveError::InvalidReynolds => "InvalidReynolds",
            SolveError::SingularDerivative => "SingularDerivative",
            SolveError::NonConvergence => "NonConvergence",
            SolveError::NoMatchingModel => "NoMatchingModel",
            SolveError::DegenerateResult => "DegenerateResult",
        }
    }
}

} // verus!
