//! Verified decision core of a steady-state two-phase (gas-liquid) pipe flow
//! calculator: regime selection, iteration control and result handling for
//! horizontal, vertical-upward and vertical-downward segments.
//!
//! Numbers cross this library as IEEE-754 binary64 bit patterns
//! ([`scalar::Scalar`]). The library orders and classifies them with integer
//! logic; every formula that needs real arithmetic is supplied by the caller
//! as a function value, and what the library promises is stated over that
//! function's own input-output relation.
//!
//! - [`scalar`]: the order and the classes of binary64 patterns.
//! - [`error`]: the failures that a calculation can report.
//! - [`kernels`]: bisection, damped fixed point and damped Newton-Raphson.
//! - [`friction`]: the branch of the Fanning friction factor.
//! - [`regime`]: the regimes, their owners, their names and their models.
//! - [`twoline`]: the state of a segment and the operations on it.
//! - [`models`]: what the regime models share, and the similarity analysis.
//! - [`horizontal`], [`vertical_up`], [`vertical_down`]: the decision tree,
//!   the models and the line of each orientation.
//! - [`validate`]: a validation run of the horizontal line.

pub mod scalar;
pub mod error;
pub mod kernels;
pub mod regime;
pub mod friction;
pub mod twoline;
pub mod models;
pub mod horizontal;
pub mod vertical_up;
pub mod vertical_down;
pub mod validate;
