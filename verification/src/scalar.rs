//! Single-precision scalars as bit patterns, and their order.

use vstd::prelude::*;
use vstd::arithmetic::mul::lemma_mul_inequality;
use vstd::arithmetic::mul::lemma_mul_strict_inequality;
use vstd::arithmetic::power2::lemma_pow2_pos;
use vstd::arithmetic::power2::lemma_pow2_strictly_increases;
use vstd::arithmetic::power2::lemma_pow2_unfold;
use vstd::arithmetic::power2::pow2;

verus! {

/// Bit pattern of the sign of a single-precision number.
pub const SIGN_BIT: u32 = 0x8000_0000;

/// Bit pattern of positive infinity; every larger magnitude is a NaN.
pub const INFINITY_BITS: u32 = 0x7f80_0000;

/// Bit pattern of `1.0`.
pub const ONE_BITS: u32 = 0x3f80_0000;

/// The number of patterns that share one exponent: two to the number of
/// fraction bits.
pub const FRACTION_SPAN: u32 = 0x0080_0000;

/// A single-precision number, held as its IEEE-754 bit pattern.
#[derive(Clone, Copy, Debug)]
pub struct Scalar {
    pub bits: u32,
}

impl Scalar {
    /// Whether the sign bit is set.
    pub open spec fn sign_negative(self) -> bool {
        self.bits >= SIGN_BIT
    }

    /// The pattern without its sign bit.
    pub open spec fn magnitude(self) -> int {
        if self.bits >= SIGN_BIT {
            self.bits - SIGN_BIT
        } else {
            self.bits as int
        }
    }

    /// Whether the pattern is a NaN: it compares false against everything.
    pub open spec fn is_nan(self) -> bool {
        self.magnitude() > INFINITY_BITS
    }

    /// An integer that orders the numbers as their values do. Both zeros
    /// have rank 0; patterns of one sign are ordered by magnitude.
    pub open spec fn rank(self) -> int {
        if self.sign_negative() {
            -self.magnitude()
        } else {
            self.magnitude()
        }
    }

    /// The biased exponent field.
    pub open spec fn exponent(self) -> int {
        self.magnitude() / (FRACTION_SPAN as int)
    }

    /// The fraction field.
    pub open spec fn fraction(self) -> int {
        self.magnitude() % (FRACTION_SPAN as int)
    }

    /// The absolute value of the number in units of two to the power -149,
    /// the smallest positive number: the fraction alone where the exponent
    /// field is zero, else the fraction with its hidden bit, shifted by the
    /// exponent. Infinity stands one exponent above the largest finite number.
    pub open spec fn scaled_magnitude(self) -> int {
        if self.exponent() == 0 {
            self.fraction()
        } else {
            (FRACTION_SPAN + self.fraction()) * pow2((self.exponent() - 1) as nat)
        }
    }

    /// The value of the number in units of two to the power -149.
    pub open spec fn scaled_value(self) -> int {
        if self.sign_negative() {
            -self.scaled_magnitude()
        } else {
            self.scaled_magnitude()
        }
    }

    /// The number of opposite sign: the pattern with its sign bit flipped.
    pub open spec fn negation(self) -> Scalar {
        if self.bits >= SIGN_BIT {
            Scalar { bits: (self.bits - SIGN_BIT) as u32 }
        } else {
            Scalar { bits: (self.bits + SIGN_BIT) as u32 }
        }
    }

    /// `self < other` as IEEE-754 defines it.
    pub open spec fn less(self, other: Scalar) -> bool {
        !self.is_nan() && !other.is_nan() && self.rank() < other.rank()
    }

    /// `self <= other` as IEEE-754 defines it.
    pub open spec fn less_eq(self, other: Scalar) -> bool {
        !self.is_nan() && !other.is_nan() && self.rank() <= other.rank()
    }

    /// The scalar with the given bit pattern.
    pub fn from_bits(bits: u32) -> (s: Scalar)
        ensures
            s.bits == bits,
    {
        Scalar { bits }
    }

    /// The bit pattern.
    pub fn to_bits(self) -> (bits: u32)
        ensures
            bits == self.bits,
    {
        self.bits
    }

    /// Whether the number is a NaN.
    pub fn nan(self) -> (r: bool)
        ensures
            r == self.is_nan(),
    {
        if self.bits >= SIGN_BIT {
            self.bits - SIGN_BIT > INFINITY_BITS
        } else {
            self.bits > INFINITY_BITS
        }
    }

    /// The number of opposite sign.
    pub fn negated(self) -> (r: Scalar)
        ensures
            r == self.negation(),
            r.magnitude() == self.magnitude(),
            r.sign_negative() != self.sign_negative(),
            r.rank() == -self.rank(),
    {
        if self.bits >= SIGN_BIT {
            Scalar { bits: self.bits - SIGN_BIT }
        } else {
            Scalar { bits: self.bits + SIGN_BIT }
        }
    }

    /// The rank of the number, computed.
    pub fn order_key(self) -> (k: i64)
        ensures
            k == self.rank(),
    {
        if self.bits >= SIGN_BIT {
            let m: u32 = self.bits - SIGN_BIT;
            -(m as i64)
        } else {
            self.bits as i64
        }
    }

    /// `self < other`; false when either is a NaN.
    pub fn lt(self, other: Scalar) -> (r: bool)
        ensures
            r == self.less(other),
    {
        !self.nan() && !other.nan() && self.order_key() < other.order_key()
    }

    /// `self <= other`; false when either is a NaN.
    pub fn le(self, other: Scalar) -> (r: bool)
        ensures
            r == self.less_eq(other),
    {
        !self.nan() && !other.nan() && self.order_key() <= other.order_key()
    }

    /// `self > other`; false when either is a NaN.
    pub fn gt(self, other: Scalar) -> (r: bool)
        ensures
            r == other.less(self),
    {
        other.lt(self)
    }

    /// `self >= other`; false when either is a NaN.
    pub fn ge(self, other: Scalar) -> (r: bool)
        ensures
            r == other.less_eq(self),
    {
        other.le(self)
    }
}

/// A larger magnitude pattern is a larger absolute value.
proof fn lemma_magnitude_orders_values(a: Scalar, b: Scalar)
    requires
        a.magnitude() < b.magnitude(),
    ensures
        0 <= a.scaled_magnitude() < b.scaled_magnitude(),
{
    let span = FRACTION_SPAN as int;
    let (ea, fa) = (a.exponent(), a.fraction());
    let (eb, fb) = (b.exponent(), b.fraction());
    assert(a.magnitude() == ea * span + fa && 0 <= fa < span && 0 <= ea) by {
        vstd::arithmetic::div_mod::lemma_fundamental_div_mod(a.magnitude(), span);
    }
    assert(b.magnitude() == eb * span + fb && 0 <= fb < span && 0 <= eb) by {
        vstd::arithmetic::div_mod::lemma_fundamental_div_mod(b.magnitude(), span);
    }
    assert(ea <= eb) by (nonlinear_arith)
        requires
            ea * span + fa < eb * span + fb,
            0 <= fa < span,
            0 <= fb < span,
    ;
    if ea > 0 {
        lemma_pow2_pos((ea - 1) as nat);
        lemma_mul_inequality(0, span + fa, pow2((ea - 1) as nat) as int);
    }
    if ea == eb {
        if ea > 0 {
            lemma_mul_strict_inequality(span + fa, span + fb, pow2((ea - 1) as nat) as int);
        }
    } else {
        let pb = pow2((eb - 1) as nat) as int;
        lemma_pow2_pos((eb - 1) as nat);
        lemma_mul_inequality(span, span + fb, pb);
        if ea == 0 {
            lemma_mul_inequality(1, pb, span);
            assert(span * pb == pb * span) by (nonlinear_arith);
        } else {
            let pa = pow2((ea - 1) as nat) as int;
            lemma_mul_strict_inequality(span + fa, 2 * span, pa);
            lemma_pow2_unfold(ea as nat);
            if ea < eb - 1 {
                lemma_pow2_strictly_increases(ea as nat, (eb - 1) as nat);
            }
            lemma_mul_inequality(2 * pa, pb, span);
            assert((2 * span) * pa == (2 * pa) * span) by (nonlinear_arith);
            assert(span * pb == pb * span) by (nonlinear_arith);
        }
    }
}

/// Ranks order the numbers as their values do: of two numbers, neither a
/// NaN, the one of lower rank is the smaller, and numbers of equal rank are
/// equal in value.
pub proof fn lemma_rank_orders_values(a: Scalar, b: Scalar)
    requires
        !a.is_nan(),
        !b.is_nan(),
    ensures
        a.rank() < b.rank() <==> a.scaled_value() < b.scaled_value(),
        a.rank() == b.rank() <==> a.scaled_value() == b.scaled_value(),
{
    let zero = Scalar { bits: 0 };
    assert(zero.scaled_magnitude() == 0);
    if a.magnitude() > 0 {
        lemma_magnitude_orders_values(zero, a);
    }
    if b.magnitude() > 0 {
        lemma_magnitude_orders_values(zero, b);
    }
    if a.magnitude() < b.magnitude() {
        lemma_magnitude_orders_values(a, b);
    }
    if b.magnitude() < a.magnitude() {
        lemma_magnitude_orders_values(b, a);
    }
}

} // verus!
