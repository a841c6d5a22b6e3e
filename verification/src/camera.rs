//! The acceptance test of the lens sampler.

use vstd::prelude::*;
use crate::scalar::Scalar;
use crate::scalar::ONE_BITS;

verus! {

/// Whether a point drawn from the square `[-1, 1]^2` is kept as a point of
/// the lens, given its squared length: it is when it lies strictly inside
/// the unit circle.
pub fn in_unit_disc(squared_length: Scalar) -> (r: bool)
    ensures
        r == squared_length.less(Scalar { bits: ONE_BITS }),
{
    squared_length.lt(Scalar::from_bits(ONE_BITS))
}

} // verus!
