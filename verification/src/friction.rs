//! The Fanning friction factor: which correlation applies to a Reynolds
//! number.

use vstd::prelude::*;
use crate::error::SolveError;
use crate::scalar::Scalar;

verus! {

/// The pattern of `2100.0`, the Reynolds number at which laminar flow ends.
pub const LAMINAR_LIMIT_BITS: u64 = 0x40A0_6800_0000_0000;

/// Whether a Reynolds number is on the laminar branch.
pub open spec fn laminar(re: Scalar) -> bool {
    re.below(Scalar { bits: LAMINAR_LIMIT_BITS })
}

/// The Fanning friction factor at Reynolds number `re` in a pipe of the given
/// absolute roughness and diameter.
///
/// A Reynolds number that is not positive and finite is refused with
/// `InvalidReynolds`. Below 2100 the factor is the laminar one, `16 / re`,
/// computed by `laminar_factor`; from 2100 on it is the explicit turbulent
/// correlation of Chen, computed by `turbulent_factor` from the Reynolds
/// number, the roughness and the diameter.
pub fn fanning<L: Fn(Scalar) -> Scalar, T: Fn(Scalar, Scalar, Scalar) -> Scalar>(
    re: Scalar,
    roughness: Scalar,
    diameter: Scalar,
    laminar_factor: L,
    turbulent_factor: T,
) -> (r: Result<Scalar, SolveError>)
    requires
        forall|x: Scalar| #[trigger] laminar_factor.requires((x,)),
        forall|x: Scalar, e: Scalar, d: Scalar| #[trigger] turbulent_factor.requires((x, e, d)),
    ensures
        !re.positive_finite() ==> r == Err::<Scalar, SolveError>(SolveError::InvalidReynolds),
        re.positive_finite() ==> r is Ok,
        r matches Ok(f) ==> if laminar(re) {
            laminar_factor.ensures((re,), f)
        } else {
            turbulent_factor.ensures((re, roughness, diameter), f)
        },
{
    if !re.is_positive_finite() {
        return Err(SolveError::InvalidReynolds);
    }
    if re.lt(Scalar::from_bits(LAMINAR_LIMIT_BITS)) {
        Ok(laminar_factor(re))
    } else {
        Ok(turbulent_factor(re, roughness, diameter))
    }
}

} // verus!
