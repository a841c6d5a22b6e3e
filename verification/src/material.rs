//! Scattering decisions of the three materials, and the acceptance test of
//! the sampler that perturbs their outgoing directions.

use vstd::prelude::*;
use crate::scalar::Scalar;
use crate::scalar::ONE_BITS;

verus! {

/// The side of a dielectric surface from which a ray arrives.
#[derive(Clone, Copy, Debug, PartialEq, Eq, Structural)]
pub enum Side {
    /// The ray travels against the normal: it enters the medium. The normal
    /// is kept and the index ratio is `1 / refraction_index`.
    Entering,
    /// The ray travels along the normal: it leaves the medium. The normal is
    /// negated and the index ratio is `refraction_index`.
    Exiting,
}

/// What a dielectric does with a ray.
#[derive(Clone, Copy, Debug, PartialEq, Eq, Structural)]
pub enum Bend {
    /// The ray is mirrored about the surface normal.
    Reflect,
    /// The ray passes through, bent by Snell's law.
    Refract,
}

/// Whether a point drawn from the cube `[-1, 1]^3` is kept, given its squared
/// length: it is when it lies in the closed unit ball.
pub fn in_unit_sphere(squared_length: Scalar) -> (r: bool)
    ensures
        r == squared_length.less_eq(Scalar { bits: ONE_BITS }),
{
    squared_length.le(Scalar::from_bits(ONE_BITS))
}

/// Whether a metal scatters, given the dot product of the outgoing direction
/// with the normal: it absorbs exactly when that product is below zero, that
/// is when the perturbed reflection points back into the surface.
pub fn metal_scatters(out_dot_normal: Scalar) -> (r: bool)
    ensures
        r == !out_dot_normal.less(Scalar { bits: 0 }),
{
    !out_dot_normal.lt(Scalar::from_bits(0))
}

/// The side from which a ray meets a dielectric, given the dot product of
/// its direction with the normal.
pub open spec fn side_of(dir_dot_normal: Scalar) -> Side {
    if (Scalar { bits: 0 }).less(dir_dot_normal) {
        Side::Exiting
    } else {
        Side::Entering
    }
}

/// Decides the side from which a ray meets a dielectric.
pub fn glass_side(dir_dot_normal: Scalar) -> (r: Side)
    ensures
        r == side_of(dir_dot_normal),
{
    if dir_dot_normal.gt(Scalar::from_bits(0)) {
        Side::Exiting
    } else {
        Side::Entering
    }
}

/// Whether Snell's law has a solution, given its discriminant
/// `1 - ratio^2 (1 - dt^2)`: it has when the discriminant is not negative.
/// Below zero the reflection is total, and a NaN refracts nothing either.
pub open spec fn can_refract(discriminant: Scalar) -> bool {
    (Scalar { bits: 0 }).less_eq(discriminant)
}

/// Decides whether a ray can be refracted.
pub fn refracts(discriminant: Scalar) -> (r: bool)
    ensures
        r == can_refract(discriminant),
{
    discriminant.ge(Scalar::from_bits(0))
}

/// What a dielectric does with a ray: it reflects when the uniform sample is
/// below the reflectance, and also when Snell's law has no solution, the
/// discriminant being negative; else it refracts.
pub open spec fn bend_of(sample: Scalar, reflectance: Scalar, discriminant: Scalar) -> Bend {
    if sample.less(reflectance) || !can_refract(discriminant) {
        Bend::Reflect
    } else {
        Bend::Refract
    }
}

/// Decides between reflection and refraction at a dielectric.
pub fn glass_bend(sample: Scalar, reflectance: Scalar, discriminant: Scalar) -> (r: Bend)
    ensures
        r == bend_of(sample, reflectance, discriminant),
{
    if sample.lt(reflectance) {
        Bend::Reflect
    } else if refracts(discriminant) {
        Bend::Refract
    } else {
        Bend::Reflect
    }
}

} // verus!
