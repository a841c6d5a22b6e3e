//! Control of the recursive radiance estimate: what follows each
//! intersection test, and how many tests one path can take.

use vstd::prelude::*;
use crate::scalar::Scalar;
use crate::scalar::INFINITY_BITS;

verus! {

/// Bit pattern of `0.001`, the smallest distance at which a hit counts: a
/// scattered ray must not hit again the surface that it leaves.
pub const NEAREST_HIT_BITS: u32 = 0x3a83_126f;

/// The open interval of distances over which the integrator tests a ray
/// against the scene: from `0.001` to positive infinity.
pub fn hit_interval() -> (r: (Scalar, Scalar))
    ensures
        r.0.bits == NEAREST_HIT_BITS,
        r.1.bits == INFINITY_BITS,
{
    (Scalar::from_bits(NEAREST_HIT_BITS), Scalar::from_bits(INFINITY_BITS))
}

/// What the integrator does after it has tested a ray against the scene.
#[derive(Clone, Copy, Debug, PartialEq, Eq, Structural)]
pub enum Action {
    /// The path ends here with the background gradient along the ray.
    Background,
    /// The material of the hit is asked to scatter. If it absorbs the ray the
    /// path ends in black; else the scattered ray is traced with `hits_left`
    /// and its radiance multiplied by the attenuation.
    Scatter { hits_left: u8 },
}

/// What the scene and the material answer at one intersection test.
#[derive(Clone, Copy, Debug, PartialEq, Eq, Structural)]
pub struct Bounce {
    /// Whether the ray hit a primitive.
    pub hit: bool,
    /// Whether the material scattered the ray; read only after a hit.
    pub scattered: bool,
}

/// The action after an intersection test: the background when the ray missed
/// or the depth budget is spent, else a scattering with one bounce fewer left.
pub open spec fn action(hit: bool, hits_left: u8) -> Action {
    if hit && hits_left > 0 {
        Action::Scatter { hits_left: (hits_left - 1) as u8 }
    } else {
        Action::Background
    }
}

/// The number of intersection tests of a path with the given depth budget,
/// when the scene and the materials answer as `answers` says, one entry per
/// test, and the path is cut where the answers end.
pub open spec fn intersection_tests(hits_left: u8, answers: Seq<Bounce>) -> nat
    decreases answers.len(),
{
    if answers.len() == 0 {
        0
    } else {
        match action(answers[0].hit, hits_left) {
            Action::Scatter { hits_left: rest } if answers[0].scattered => 1 + intersection_tests(
                rest,
                answers.skip(1),
            ),
            _ => 1,
        }
    }
}

/// Decides what follows an intersection test.
pub fn decide(hit: bool, hits_left: u8) -> (r: Action)
    ensures
        r == action(hit, hits_left),
{
    if hit && hits_left > 0 {
        Action::Scatter { hits_left: hits_left - 1 }
    } else {
        Action::Background
    }
}

/// A path takes at most one intersection test more than its depth budget,
/// whatever the scene and the materials answer.
pub proof fn lemma_tests_bounded(hits_left: u8, answers: Seq<Bounce>)
    ensures
        intersection_tests(hits_left, answers) <= hits_left + 1,
    decreases answers.len(),
{
    if answers.len() > 0 {
        match action(answers[0].hit, hits_left) {
            Action::Scatter { hits_left: rest } => {
                lemma_tests_bounded(rest, answers.skip(1));
            },
            Action::Background => {},
        }
    }
}

/// With no depth budget the first test ends the path in the background,
/// whether or not the ray hit anything.
pub proof fn lemma_spent_budget_is_background(hit: bool, answers: Seq<Bounce>)
    ensures
        action(hit, 0) == Action::Background,
        intersection_tests(0, answers) <= 1,
{
}

} // verus!
