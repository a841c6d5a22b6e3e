//! Decision kernel of a stochastic path tracer.
//!
//! Every branch that a path tracer takes - which root of the sphere quadratic
//! is the hit, which primitive is closest, whether a material absorbs, when
//! the recursion stops - is decided here on single-precision bit patterns and
//! integers, so that each decision has a proved contract.

pub mod camera;
pub mod hitable;
pub mod integrator;
pub mod material;
pub mod scalar;
