//! Intersection decisions: which root of the sphere quadratic is the hit,
//! and which primitive of a collection is hit first.

use vstd::prelude::*;
use crate::scalar::Scalar;
use crate::scalar::SIGN_BIT;

verus! {

/// One of the two roots of the sphere quadratic.
#[derive(Clone, Copy, Debug, PartialEq, Eq, Structural)]
pub enum Root {
    /// The smaller root, `(-b - sqrt(delta)) / 2a`: where the ray enters.
    Near,
    /// The larger root, `(-b + sqrt(delta)) / 2a`: where the ray leaves.
    Far,
}

/// The way the normal of a sphere points at a hit.
#[derive(Clone, Copy, Debug, PartialEq, Eq, Structural)]
pub enum Facing {
    /// Away from the center: the radius is not negative.
    Outward,
    /// Towards the center: the radius is negative, the sphere a hollow shell.
    Inward,
}

impl Facing {
    /// The other way.
    pub open spec fn opposite(self) -> Facing {
        match self {
            Facing::Outward => Facing::Inward,
            Facing::Inward => Facing::Outward,
        }
    }
}

/// The way the normal points for a given radius: by the sign of the radius,
/// that of a zero too, and no way when the radius is a NaN.
pub open spec fn facing_of(radius: Scalar) -> Option<Facing> {
    if radius.is_nan() {
        None
    } else if radius.sign_negative() {
        Some(Facing::Inward)
    } else {
        Some(Facing::Outward)
    }
}

/// Decides which way the normal of a sphere points.
pub fn sphere_facing(radius: Scalar) -> (r: Option<Facing>)
    ensures
        r == facing_of(radius),
{
    if radius.nan() {
        None
    } else if radius.to_bits() >= SIGN_BIT {
        Some(Facing::Inward)
    } else {
        Some(Facing::Outward)
    }
}

/// A sphere of negated radius has its normals the other way round.
pub proof fn lemma_negated_radius_flips_normal(radius: Scalar)
    requires
        !radius.is_nan(),
    ensures
        !radius.negation().is_nan(),
        radius.negation().magnitude() == radius.magnitude(),
        facing_of(radius.negation()) == Some(facing_of(radius).unwrap().opposite()),
{
}

/// Whether `t` is rejected by neither end of the open interval
/// `(t_min, t_max)`. A NaN is rejected by neither.
pub open spec fn within(t: Scalar, t_min: Scalar, t_max: Scalar) -> bool {
    !t.less_eq(t_min) && !t_max.less_eq(t)
}

/// The root at which a ray hits a sphere: none when the discriminant is
/// negative, else the near root when it is within the interval, else the far
/// root when that one is, else none.
pub open spec fn hit_root(
    delta: Scalar,
    near: Scalar,
    far: Scalar,
    t_min: Scalar,
    t_max: Scalar,
) -> Option<Root> {
    if delta.less(Scalar { bits: 0 }) {
        None
    } else if within(near, t_min, t_max) {
        Some(Root::Near)
    } else if within(far, t_min, t_max) {
        Some(Root::Far)
    } else {
        None
    }
}

/// Whether `t` lies in the open interval `(t_min, t_max)`; a NaN counts as
/// inside, since neither end rejects it.
pub fn in_interval(t: Scalar, t_min: Scalar, t_max: Scalar) -> (r: bool)
    ensures
        r == within(t, t_min, t_max),
{
    !(t.le(t_min) || t.ge(t_max))
}

/// Decides the hit of a ray on a sphere from the discriminant `delta` of the
/// quadratic and its two roots.
pub fn select_root(
    delta: Scalar,
    near: Scalar,
    far: Scalar,
    t_min: Scalar,
    t_max: Scalar,
) -> (r: Option<Root>)
    ensures
        r == hit_root(delta, near, far, t_min, t_max),
{
    if delta.lt(Scalar::from_bits(0)) {
        None
    } else if in_interval(near, t_min, t_max) {
        Some(Root::Near)
    } else if in_interval(far, t_min, t_max) {
        Some(Root::Far)
    } else {
        None
    }
}

/// Whether primitive `j` was hit at a distance that can be compared: any
/// distance but a NaN, which is nearer than nothing.
pub open spec fn eligible(ts: Seq<Option<Scalar>>, j: int) -> bool {
    &&& 0 <= j < ts.len()
    &&& ts[j] is Some
    &&& !ts[j].unwrap().is_nan()
}

/// Whether primitive `i` is the closest hit: no eligible primitive is
/// nearer, and every eligible one before it is strictly farther.
pub open spec fn is_closest(ts: Seq<Option<Scalar>>, i: int) -> bool {
    &&& eligible(ts, i)
    &&& forall|j: int| #[trigger]
        eligible(ts, j) ==> ts[i].unwrap().rank() <= ts[j].unwrap().rank()
    &&& forall|j: int|
        j < i && #[trigger] eligible(ts, j) ==> ts[i].unwrap().rank() < ts[j].unwrap().rank()
}

/// Finds the closest hit among the primitives of a collection, given for each
/// the distance at which the ray hits it, if it does. Of primitives hit at the
/// same smallest distance the first wins.
pub fn closest_hit(ts: &Vec<Option<Scalar>>) -> (r: Option<usize>)
    ensures
        match r {
            Some(i) => is_closest(ts@, i as int),
            None => forall|j: int| !eligible(ts@, j),
        },
{
    let mut best: Option<usize> = None;
    let mut best_t: Scalar = Scalar::from_bits(0);
    let mut k: usize = 0;
    while k < ts.len()
        invariant
            k <= ts.len(),
            match best {
                Some(i) => i < k && is_closest(ts@.take(k as int), i as int)
                    && best_t == ts@[i as int].unwrap(),
                None => forall|j: int| !eligible(ts@.take(k as int), j),
            },
        decreases ts.len() - k,
    {
        proof {
            let before = ts@.take(k as int);
            let after = ts@.take(k + 1);
            assert forall|j: int| eligible(after, j) && j != k implies eligible(before, j) by {}
            assert forall|j: int| eligible(before, j) implies eligible(after, j) by {}
        }
        if let Some(t) = ts[k] {
            if !t.nan() && (best.is_none() || t.lt(best_t)) {
                best_t = t;
                best = Some(k);
            }
        }
        k = k + 1;
    }
    assert(ts@.take(k as int) =~= ts@);
    best
}

} // verus!
