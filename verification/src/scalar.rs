//! Single-precision numbers, held by their IEEE-754 binary32 bit pattern.
//!
//! The renderer's arithmetic is done by the host. What this crate decides on
//! those numbers (sign, order, containment) it decides on the bit pattern:
//! the contracts speak of the number that a pattern encodes, and the code
//! compares sign and magnitude, which order the patterns as their numbers.

use vstd::arithmetic::power2::{
    lemma2_to64, lemma_pow2_adds, lemma_pow2_pos, lemma_pow2_strictly_increases,
    lemma_pow2_unfold, pow2,
};
use vstd::prelude::*;

verus! {

/// The sign bit of a binary32 pattern.
pub const SIGN_MASK: u32 = 0x8000_0000;

/// Everything but the sign bit: exponent and fraction.
pub const MAGNITUDE_MASK: u32 = 0x7fff_ffff;

/// The magnitude of an infinity; larger magnitudes are NaNs.
pub const INFINITY_BITS: u32 = 0x7f80_0000;

/// A binary32 value by its bit pattern.
#[derive(Clone, Copy, Debug)]
pub struct Scalar {
    pub bits: u32,
}

/// The pattern of `1.0`.
pub const ONE_BITS: u32 = 0x3f80_0000;

/// The pattern of `2^-23`, the distance from `1.0` to the next larger value.
pub const EPSILON_BITS: u32 = 0x3400_0000;

/// The pattern of negative infinity.
pub const NEG_INFINITY_BITS: u32 = 0xff80_0000;

impl Scalar {
    /// Exponent and fraction as one integer, below `2^31`.
    pub open spec fn magnitude(self) -> u32 {
        self.bits & MAGNITUDE_MASK
    }

    /// Whether the sign bit is set.
    pub open spec fn negative(self) -> bool {
        self.bits & SIGN_MASK != 0
    }

    /// Not a number: the exponent is all ones and the fraction is not zero.
    pub open spec fn is_nan_spec(self) -> bool {
        self.magnitude() > INFINITY_BITS
    }

    /// What a magnitude is worth in units of `2^-149`, the smallest positive
    /// value. With exponent field `e` and fraction field `f` that is `f`
    /// for a subnormal (`e == 0`) and `(2^23 + f) * 2^(e - 1)` otherwise.
    /// For the magnitude of an infinity it is a number beyond every finite
    /// one.
    pub open spec fn magnitude_value(m: nat) -> int {
        let e = m / 0x80_0000;
        let f = m % 0x80_0000;
        if e == 0 {
            f as int
        } else {
            ((0x80_0000 + f) * pow2((e - 1) as nat)) as int
        }
    }

    /// The number that the pattern encodes, in units of `2^-149`: every
    /// finite binary32 value is a whole multiple of that.
    pub open spec fn scaled_value(self) -> int {
        if self.negative() {
            -Scalar::magnitude_value(self.magnitude() as nat)
        } else {
            Scalar::magnitude_value(self.magnitude() as nat)
        }
    }

    /// Where the pattern stands among all patterns of numbers: the
    /// magnitude, counted downwards from zero under a sign bit. Both zeros
    /// stand at `0`. Patterns rank as their numbers do.
    pub open spec fn rank(self) -> int {
        if self.negative() {
            -(self.magnitude() as int)
        } else {
            self.magnitude() as int
        }
    }

    /// `self < other` as IEEE-754 compares: false when either is NaN.
    pub open spec fn lt_spec(self, other: Scalar) -> bool {
        !self.is_nan_spec() && !other.is_nan_spec() && self.scaled_value()
            < other.scaled_value()
    }

    /// `self <= other` as IEEE-754 compares: false when either is NaN.
    pub open spec fn le_spec(self, other: Scalar) -> bool {
        !self.is_nan_spec() && !other.is_nan_spec() && self.scaled_value()
            <= other.scaled_value()
    }

    /// `self > other` as IEEE-754 compares: false when either is NaN.
    pub open spec fn gt_spec(self, other: Scalar) -> bool {
        other.lt_spec(self)
    }

    /// `self >= other` as IEEE-754 compares: false when either is NaN.
    pub open spec fn ge_spec(self, other: Scalar) -> bool {
        other.le_spec(self)
    }

    /// `self == other` as IEEE-754 compares: NaN equals nothing, and the
    /// two zeros equal each other.
    pub open spec fn same_value_spec(self, other: Scalar) -> bool {
        !self.is_nan_spec() && !other.is_nan_spec() && self.scaled_value()
            == other.scaled_value()
    }

    /// The value with the opposite sign bit.
    pub open spec fn neg_spec(self) -> Scalar {
        Scalar { bits: self.bits ^ SIGN_MASK }
    }

    /// The value with a cleared sign bit.
    pub open spec fn abs_spec(self) -> Scalar {
        Scalar { bits: self.bits & MAGNITUDE_MASK }
    }

    /// The smaller of two values, a NaN giving way to the other operand.
    /// Of two operands that compare equal it is `self`.
    pub open spec fn min_spec(self, other: Scalar) -> Scalar {
        if self.is_nan_spec() {
            other
        } else if other.lt_spec(self) {
            other
        } else {
            self
        }
    }

    /// `0.0`
    #[verifier::allow_in_spec]
    pub fn zero() -> Scalar
        returns
            (Scalar { bits: 0 }),
    {
        Scalar { bits: 0 }
    }

    /// `1.0`
    #[verifier::allow_in_spec]
    pub fn one() -> Scalar
        returns
            (Scalar { bits: ONE_BITS }),
    {
        Scalar { bits: ONE_BITS }
    }

    /// The distance from `1.0` to the next larger value.
    #[verifier::allow_in_spec]
    pub fn epsilon() -> Scalar
        returns
            (Scalar { bits: EPSILON_BITS }),
    {
        Scalar { bits: EPSILON_BITS }
    }

    /// Positive infinity.
    #[verifier::allow_in_spec]
    pub fn infinity() -> Scalar
        returns
            (Scalar { bits: INFINITY_BITS }),
    {
        Scalar { bits: INFINITY_BITS }
    }

    /// Negative infinity.
    #[verifier::allow_in_spec]
    pub fn neg_infinity() -> Scalar
        returns
            (Scalar { bits: NEG_INFINITY_BITS }),
    {
        Scalar { bits: NEG_INFINITY_BITS }
    }

    pub fn from_bits(bits: u32) -> (r: Scalar)
        ensures
            r.bits == bits,
    {
        Scalar { bits }
    }

    pub fn to_bits(self) -> (r: u32)
        ensures
            r == self.bits,
    {
        self.bits
    }

    #[verifier::when_used_as_spec(is_nan_spec)]
    pub fn is_nan(self) -> (r: bool)
        ensures
            r == self.is_nan_spec(),
    {
        (self.bits & MAGNITUDE_MASK) > INFINITY_BITS
    }

    fn rank_of(self) -> (r: i64)
        ensures
            r == self.rank(),
    {
        let m: u32 = self.bits & MAGNITUDE_MASK;
        if self.bits & SIGN_MASK != 0 {
            -(m as i64)
        } else {
            m as i64
        }
    }

    #[verifier::when_used_as_spec(lt_spec)]
    pub fn lt(self, other: Scalar) -> (r: bool)
        ensures
            r == self.lt_spec(other),
    {
        proof {
            lemma_rank_orders_as_values(self, other);
        }
        !self.is_nan() && !other.is_nan() && self.rank_of() < other.rank_of()
    }

    #[verifier::when_used_as_spec(le_spec)]
    pub fn le(self, other: Scalar) -> (r: bool)
        ensures
            r == self.le_spec(other),
    {
        proof {
            lemma_rank_orders_as_values(self, other);
        }
        !self.is_nan() && !other.is_nan() && self.rank_of() <= other.rank_of()
    }

    #[verifier::when_used_as_spec(gt_spec)]
    pub fn gt(self, other: Scalar) -> (r: bool)
        ensures
            r == self.gt_spec(other),
    {
        other.lt(self)
    }

    #[verifier::when_used_as_spec(ge_spec)]
    pub fn ge(self, other: Scalar) -> (r: bool)
        ensures
            r == self.ge_spec(other),
    {
        other.le(self)
    }

    #[verifier::when_used_as_spec(same_value_spec)]
    pub fn same_value(self, other: Scalar) -> (r: bool)
        ensures
            r == self.same_value_spec(other),
    {
        proof {
            lemma_rank_orders_as_values(self, other);
        }
        !self.is_nan() && !other.is_nan() && self.rank_of() == other.rank_of()
    }

    #[verifier::when_used_as_spec(neg_spec)]
    pub fn neg(self) -> (r: Scalar)
        ensures
            r == self.neg_spec(),
            r.magnitude() == self.magnitude(),
            r.negative() == !self.negative(),
    {
        proof {
            lemma_neg_flips_sign(self);
        }
        Scalar { bits: self.bits ^ SIGN_MASK }
    }

    #[verifier::when_used_as_spec(abs_spec)]
    pub fn abs(self) -> (r: Scalar)
        ensures
            r == self.abs_spec(),
            r.magnitude() == self.magnitude(),
            !r.negative(),
    {
        proof {
            lemma_abs_clears_sign(self);
        }
        Scalar { bits: self.bits & MAGNITUDE_MASK }
    }

    #[verifier::when_used_as_spec(min_spec)]
    pub fn min(self, other: Scalar) -> (r: Scalar)
        ensures
            r == self.min_spec(other),
    {
        if self.is_nan() {
            other
        } else if other.lt(self) {
            other
        } else {
            self
        }
    }
}

impl PartialEq for Scalar {
    /// Equality of the encoded numbers, not of the patterns: NaN equals
    /// nothing, and the two zeros equal each other.
    fn eq(&self, other: &Scalar) -> (r: bool) {
        self.same_value(*other)
    }
}

impl vstd::std_specs::cmp::PartialEqSpecImpl for Scalar {
    open spec fn obeys_eq_spec() -> bool {
        true
    }

    open spec fn eq_spec(&self, other: &Scalar) -> bool {
        self.same_value_spec(*other)
    }
}

/// The ranks of the named constants, none of which is NaN. With
/// `lemma_rank_orders_as_values` they place a number against a constant.
pub proof fn lemma_ranks_of_constants()
    ensures
        Scalar::zero().rank() == 0,
        Scalar::one().rank() == 0x3f80_0000,
        Scalar::epsilon().rank() == 0x3400_0000,
        Scalar::infinity().rank() == 0x7f80_0000,
        Scalar::neg_infinity().rank() == -0x7f80_0000,
        !Scalar::zero().is_nan_spec(),
        !Scalar::one().is_nan_spec(),
        !Scalar::epsilon().is_nan_spec(),
        !Scalar::infinity().is_nan_spec(),
        !Scalar::neg_infinity().is_nan_spec(),
{
    assert(0u32 & 0x7fff_ffffu32 == 0) by (bit_vector);
    assert(0u32 & 0x8000_0000u32 == 0) by (bit_vector);
    assert(0x3f80_0000u32 & 0x7fff_ffffu32 == 0x3f80_0000u32) by (bit_vector);
    assert(0x3f80_0000u32 & 0x8000_0000u32 == 0) by (bit_vector);
    assert(0x3400_0000u32 & 0x7fff_ffffu32 == 0x3400_0000u32) by (bit_vector);
    assert(0x3400_0000u32 & 0x8000_0000u32 == 0) by (bit_vector);
    assert(0x7f80_0000u32 & 0x7fff_ffffu32 == 0x7f80_0000u32) by (bit_vector);
    assert(0x7f80_0000u32 & 0x8000_0000u32 == 0) by (bit_vector);
    assert(0xff80_0000u32 & 0x7fff_ffffu32 == 0x7f80_0000u32) by (bit_vector);
    assert(0xff80_0000u32 & 0x8000_0000u32 != 0) by (bit_vector);
}

/// Negation keeps the magnitude and turns the sign: it negates the number,
/// keeps a NaN a NaN, and undoes itself.
pub proof fn lemma_neg_flips_sign(a: Scalar)
    ensures
        a.neg_spec().magnitude() == a.magnitude(),
        a.neg_spec().negative() == !a.negative(),
        a.neg_spec().is_nan_spec() == a.is_nan_spec(),
        a.neg_spec().scaled_value() == -a.scaled_value(),
        a.neg_spec().rank() == -a.rank(),
        a.neg_spec().neg_spec() == a,
{
    let b: u32 = a.bits;
    assert((b ^ 0x8000_0000u32) & 0x7fff_ffffu32 == b & 0x7fff_ffffu32) by (bit_vector);
    assert(((b ^ 0x8000_0000u32) & 0x8000_0000u32 != 0) == !(b & 0x8000_0000u32 != 0))
        by (bit_vector);
    assert((b ^ 0x8000_0000u32) ^ 0x8000_0000u32 == b) by (bit_vector);
}

/// The absolute value keeps the magnitude and clears the sign: it is the
/// number or its negation, whichever is not below zero, and keeps a NaN a
/// NaN.
pub proof fn lemma_abs_clears_sign(a: Scalar)
    ensures
        a.abs_spec().magnitude() == a.magnitude(),
        !a.abs_spec().negative(),
        a.abs_spec().is_nan_spec() == a.is_nan_spec(),
        a.abs_spec().scaled_value() >= 0,
        a.abs_spec().scaled_value() == a.scaled_value() || a.abs_spec().scaled_value()
            == -a.scaled_value(),
        a.abs_spec().rank() == a.magnitude(),
{
    if 0 < a.magnitude() {
        lemma_magnitude_value_increases(0, a.magnitude() as nat);
    }
    let b: u32 = a.bits;
    assert((b & 0x7fff_ffffu32) & 0x7fff_ffffu32 == b & 0x7fff_ffffu32) by (bit_vector);
    assert((b & 0x7fff_ffffu32) & 0x8000_0000u32 == 0) by (bit_vector);
}

/// A number that is not NaN has a rank between those of the infinities.
pub proof fn lemma_rank_bounds(x: Scalar)
    ensures
        !x.is_nan_spec() ==> -0x7f80_0000 <= x.rank() <= 0x7f80_0000,
        x.magnitude() <= 0x7fff_ffff,
{
    let b: u32 = x.bits;
    assert(b & 0x7fff_ffffu32 <= 0x7fff_ffffu32) by (bit_vector);
}

/// A larger magnitude is worth more.
pub proof fn lemma_magnitude_value_increases(m1: nat, m2: nat)
    requires
        m1 < m2,
    ensures
        0 <= Scalar::magnitude_value(m1) < Scalar::magnitude_value(m2),
{
    let e1 = m1 / 0x80_0000;
    let f1 = m1 % 0x80_0000;
    let e2 = m2 / 0x80_0000;
    let f2 = m2 % 0x80_0000;
    if e1 > 0 {
        let scale1 = pow2((e1 - 1) as nat) as int;
        lemma_pow2_pos((e1 - 1) as nat);
        assert(0 <= (0x80_0000 + f1) * scale1 < 0x100_0000 * scale1) by (nonlinear_arith)
            requires
                0 <= f1 < 0x80_0000,
                scale1 > 0,
        ;
    }
    if e1 == e2 {
        if e1 > 0 {
            let scale = pow2((e1 - 1) as nat) as int;
            assert((0x80_0000 + f1) * scale < (0x80_0000 + f2) * scale) by (nonlinear_arith)
                requires
                    f1 < f2,
                    scale > 0,
            ;
        }
    } else {
        let scale2 = pow2((e2 - 1) as nat) as int;
        lemma_pow2_pos((e2 - 1) as nat);
        assert((0x80_0000 + f2) * scale2 >= 0x80_0000 * scale2) by (nonlinear_arith)
            requires
                f2 >= 0,
                scale2 > 0,
        ;
        if e1 == 0 {
            assert(0x80_0000 * scale2 >= 0x80_0000) by (nonlinear_arith)
                requires
                    scale2 >= 1,
            ;
        } else {
            let scale1 = pow2((e1 - 1) as nat) as int;
            lemma_pow2_unfold(e1);
            if e1 < e2 - 1 {
                lemma_pow2_strictly_increases(e1, (e2 - 1) as nat);
            }
            assert(0x100_0000 * scale1 <= 0x80_0000 * scale2) by (nonlinear_arith)
                requires
                    2 * scale1 <= scale2,
            ;
        }
    }
}

/// The rank orders scalars as the numbers they encode: of two scalars that
/// are not NaN, one ranks below the other exactly when its value is the
/// smaller, and they rank alike exactly when their values are equal.
pub proof fn lemma_rank_orders_as_values(a: Scalar, b: Scalar)
    ensures
        (a.rank() < b.rank()) == (a.scaled_value() < b.scaled_value()),
        (a.rank() == b.rank()) == (a.scaled_value() == b.scaled_value()),
{
    let m1 = a.magnitude() as nat;
    let m2 = b.magnitude() as nat;
    if m1 < m2 {
        lemma_magnitude_value_increases(m1, m2);
    }
    if m2 < m1 {
        lemma_magnitude_value_increases(m2, m1);
    }
    if 0 < m1 {
        lemma_magnitude_value_increases(0, m1);
    }
    if 0 < m2 {
        lemma_magnitude_value_increases(0, m2);
    }
    assert(Scalar::magnitude_value(0) == 0);
}

/// What the named constants are worth: zero is `0`, one is `2^149` units of
/// `2^-149`, and epsilon is `2^126` of them, which is `2^-23`.
pub proof fn lemma_values_of_constants()
    ensures
        Scalar::zero().scaled_value() == 0,
        Scalar::one().scaled_value() == pow2(149),
        Scalar::epsilon().scaled_value() == pow2(126),
{
    lemma_ranks_of_constants();
    lemma2_to64();
    lemma_pow2_adds(23, 126);
    lemma_pow2_adds(23, 103);
}

} // verus!
