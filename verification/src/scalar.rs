//! Double-precision numbers, held by their IEEE 754 bit pattern.
//!
//! A [`Double`] is the 64 bits of a binary64 value. Order, sign and the test
//! for NaN are computed on the bits and proved here. Rounding arithmetic is
//! done by the processor: each such operation has a name, and the result of
//! the operation is that name applied to the operands' bits. IEEE 754 leaves
//! the payload of a NaN result open, so every result is brought to the one
//! quiet NaN [`NAN`] before it is handed out.

use vstd::prelude::*;

verus! {

/// The scalar that the double-precision vectors of `glm` hold.
pub(crate) type Float = <glm::DVec3 as std::ops::Index<usize>>::Output;

/// The sign bit.
pub const SIGN: u64 = 0x8000_0000_0000_0000;

/// Positive infinity; every magnitude above it is a NaN.
pub const INFINITY: u64 = 0x7FF0_0000_0000_0000;

/// The quiet NaN that stands for every NaN result.
pub const NAN: u64 = 0x7FF8_0000_0000_0000;

/// The largest finite double.
pub const MAX: u64 = 0x7FEF_FFFF_FFFF_FFFF;

/// 0.0
pub const ZERO: u64 = 0;

/// 1.0
pub const ONE: u64 = 0x3FF0_0000_0000_0000;

/// 2.0
pub const TWO: u64 = 0x4000_0000_0000_0000;

/// 0.5
pub const HALF: u64 = 0x3FE0_0000_0000_0000;

/// -0.5
pub const MINUS_HALF: u64 = 0xBFE0_0000_0000_0000;

/// -1.0
pub const MINUS_ONE: u64 = 0xBFF0_0000_0000_0000;

/// 255.0
pub const BYTE_MAX: u64 = 0x406F_E000_0000_0000;

/// One degree in radians: the double nearest to pi / 180.
pub const DEGREE: u64 = 0x3F91_DF46_A252_9D39;

/// The sum of two doubles, rounded to nearest; a NaN sum is [`NAN`].
pub uninterp spec fn sum_of(a: u64, b: u64) -> u64;

/// The difference of two doubles, rounded to nearest; a NaN is [`NAN`].
pub uninterp spec fn difference_of(a: u64, b: u64) -> u64;

/// The product of two doubles, rounded to nearest; a NaN is [`NAN`].
pub uninterp spec fn product_of(a: u64, b: u64) -> u64;

/// The quotient of two doubles, rounded to nearest; a NaN is [`NAN`].
pub uninterp spec fn quotient_of(a: u64, b: u64) -> u64;

/// The square root of a double, rounded to nearest; a NaN is [`NAN`].
pub uninterp spec fn square_root_of(a: u64) -> u64;

/// The double nearest to an unsigned integer.
pub uninterp spec fn double_of_unsigned(n: u64) -> u64;

/// The double nearest to a signed integer.
pub uninterp spec fn double_of_signed(n: i64) -> u64;

/// A double cut to its integer part and brought into `0..=255`; NaN gives 0.
pub uninterp spec fn byte_of(a: u64) -> u8;

/// A double-precision number by its bit pattern.
///
/// `==` on two values compares the bits: it tells `0.0` from `-0.0`, and a
/// NaN equals itself. The numeric order is [`Double::lt`] and [`Double::le`].
#[derive(Clone, Copy, PartialEq, Eq, Structural, Debug)]
pub struct Double {
    pub bits: u64,
}

impl Double {
    /// The sign bit is set.
    pub open spec fn spec_is_negative(self) -> bool {
        self.bits >= SIGN
    }

    /// The bits without the sign.
    pub open spec fn spec_magnitude(self) -> u64 {
        if self.bits >= SIGN {
            (self.bits - SIGN) as u64
        } else {
            self.bits
        }
    }

    /// The value is not a number.
    pub open spec fn spec_is_nan(self) -> bool {
        self.spec_magnitude() > INFINITY
    }

    /// An integer that orders the doubles other than NaN as their values do:
    /// both zeros are 0, and the doubles below zero mirror those above.
    pub open spec fn ordinal(self) -> int {
        if self.spec_is_negative() {
            -(self.spec_magnitude() as int)
        } else {
            self.spec_magnitude() as int
        }
    }

    /// `self < other` as IEEE 754 has it: false where either is a NaN.
    pub open spec fn spec_lt(self, other: Double) -> bool {
        !self.spec_is_nan() && !other.spec_is_nan() && self.ordinal() < other.ordinal()
    }

    /// `self <= other` as IEEE 754 has it: false where either is a NaN.
    pub open spec fn spec_le(self, other: Double) -> bool {
        !self.spec_is_nan() && !other.spec_is_nan() && self.ordinal() <= other.ordinal()
    }

    /// `self > other`, which is `other < self`.
    pub open spec fn spec_gt(self, other: Double) -> bool {
        other.spec_lt(self)
    }

    /// `self >= other`, which is `other <= self`.
    pub open spec fn spec_ge(self, other: Double) -> bool {
        other.spec_le(self)
    }

    /// The value itself, or [`NAN`] for every NaN.
    pub open spec fn spec_canonical(self) -> Double {
        if self.spec_is_nan() {
            Double { bits: NAN }
        } else {
            self
        }
    }

    /// The value with the opposite sign.
    pub open spec fn spec_neg(self) -> Double {
        if self.spec_is_nan() {
            Double { bits: NAN }
        } else if self.bits >= SIGN {
            Double { bits: (self.bits - SIGN) as u64 }
        } else {
            Double { bits: (self.bits + SIGN) as u64 }
        }
    }

    /// The value with the sign cleared.
    pub open spec fn spec_abs(self) -> Double {
        if self.spec_is_nan() {
            Double { bits: NAN }
        } else {
            Double { bits: self.spec_magnitude() }
        }
    }

    /// The sum.
    pub open spec fn spec_add(self, rhs: Double) -> Double {
        Double { bits: sum_of(self.bits, rhs.bits) }
    }

    /// The difference.
    pub open spec fn spec_sub(self, rhs: Double) -> Double {
        Double { bits: difference_of(self.bits, rhs.bits) }
    }

    /// The product.
    pub open spec fn spec_mul(self, rhs: Double) -> Double {
        Double { bits: product_of(self.bits, rhs.bits) }
    }

    /// The quotient.
    pub open spec fn spec_div(self, rhs: Double) -> Double {
        Double { bits: quotient_of(self.bits, rhs.bits) }
    }

    /// The square root.
    pub open spec fn spec_sqrt(self) -> Double {
        Double { bits: square_root_of(self.bits) }
    }

    /// The double nearest to `n`.
    pub open spec fn spec_from_usize(n: usize) -> Double {
        Double { bits: double_of_unsigned(n as u64) }
    }

    /// The double nearest to `n`.
    pub open spec fn spec_from_i32(n: i32) -> Double {
        Double { bits: double_of_signed(n as i64) }
    }

    /// The integer part of the value, brought into `0..=255`.
    pub open spec fn spec_to_byte(self) -> u8 {
        byte_of(self.bits)
    }

    /// The angle in radians of an angle in degrees: the product with
    /// [`DEGREE`].
    pub open spec fn spec_radians(self) -> Double {
        self.spec_mul(Double { bits: DEGREE })
    }

    /// `self` is a value that the minimum of `a` and `b` may have: the one
    /// that is a number where the other is none, the lesser where one is
    /// less, and either where both are equal, as two zeros of opposite sign
    /// are.
    pub open spec fn is_min_of(self, a: Double, b: Double) -> bool {
        if a.spec_is_nan() {
            self == b.spec_canonical()
        } else if b.spec_is_nan() {
            self == a
        } else if a.spec_lt(b) {
            self == a
        } else if b.spec_lt(a) {
            self == b
        } else {
            self == a || self == b
        }
    }

    /// `self` is a value that the maximum of `a` and `b` may have.
    pub open spec fn is_max_of(self, a: Double, b: Double) -> bool {
        if a.spec_is_nan() {
            self == b.spec_canonical()
        } else if b.spec_is_nan() {
            self == a
        } else if a.spec_lt(b) {
            self == b
        } else if b.spec_lt(a) {
            self == a
        } else {
            self == a || self == b
        }
    }

    /// `0 <= self < 1`, with the sign bit clear.
    pub open spec fn in_unit_interval(self) -> bool {
        self.bits < ONE
    }

    /// The double with the given bits.
    pub fn from_bits(bits: u64) -> (r: Double)
        ensures
            r.bits == bits,
    {
        Double { bits }
    }

    /// The bits of the double.
    pub fn to_bits(self) -> (r: u64)
        ensures
            r == self.bits,
    {
        self.bits
    }

    /// Whether the sign bit is set.
    #[verifier::when_used_as_spec(spec_is_negative)]
    pub fn is_negative(self) -> (r: bool)
        ensures
            r == self.spec_is_negative(),
    {
        self.bits >= SIGN
    }

    /// The bits without the sign.
    #[verifier::when_used_as_spec(spec_magnitude)]
    pub fn magnitude(self) -> (r: u64)
        ensures
            r == self.spec_magnitude(),
    {
        if self.bits >= SIGN {
            self.bits - SIGN
        } else {
            self.bits
        }
    }

    /// Whether the value is not a number.
    #[verifier::when_used_as_spec(spec_is_nan)]
    pub fn is_nan(self) -> (r: bool)
        ensures
            r == self.spec_is_nan(),
    {
        self.magnitude() > INFINITY
    }

    /// `self < other`; false where either is a NaN.
    #[verifier::when_used_as_spec(spec_lt)]
    pub fn lt(self, other: Double) -> (r: bool)
        ensures
            r == self.spec_lt(other),
    {
        if self.is_nan() || other.is_nan() {
            return false;
        }
        let a: u64 = self.magnitude();
        let b: u64 = other.magnitude();
        if self.is_negative() {
            if other.is_negative() {
                b < a
            } else {
                a > 0 || b > 0
            }
        } else {
            !other.is_negative() && a < b
        }
    }

    /// `self <= other`; false where either is a NaN.
    #[verifier::when_used_as_spec(spec_le)]
    pub fn le(self, other: Double) -> (r: bool)
        ensures
            r == self.spec_le(other),
    {
        if self.is_nan() || other.is_nan() {
            return false;
        }
        let a: u64 = self.magnitude();
        let b: u64 = other.magnitude();
        if self.is_negative() {
            !other.is_negative() || b <= a
        } else if other.is_negative() {
            a == 0 && b == 0
        } else {
            a <= b
        }
    }

    /// `self > other`; false where either is a NaN.
    #[verifier::when_used_as_spec(spec_gt)]
    pub fn gt(self, other: Double) -> (r: bool)
        ensures
            r == self.spec_gt(other),
    {
        other.lt(self)
    }

    /// `self >= other`; false where either is a NaN.
    #[verifier::when_used_as_spec(spec_ge)]
    pub fn ge(self, other: Double) -> (r: bool)
        ensures
            r == self.spec_ge(other),
    {
        other.le(self)
    }

    /// The value itself, or [`NAN`] for every NaN.
    #[verifier::when_used_as_spec(spec_canonical)]
    pub fn canonical(self) -> (r: Double)
        ensures
            r == self.spec_canonical(),
    {
        if self.is_nan() {
            Double { bits: NAN }
        } else {
            self
        }
    }

    /// The value with the opposite sign.
    #[verifier::when_used_as_spec(spec_neg)]
    pub fn neg(self) -> (r: Double)
        ensures
            r == self.spec_neg(),
    {
        if self.is_nan() {
            Double { bits: NAN }
        } else if self.bits >= SIGN {
            Double { bits: self.bits - SIGN }
        } else {
            Double { bits: self.bits + SIGN }
        }
    }

    /// The value with the sign cleared.
    #[verifier::when_used_as_spec(spec_abs)]
    pub fn abs(self) -> (r: Double)
        ensures
            r == self.spec_abs(),
    {
        if self.is_nan() {
            Double { bits: NAN }
        } else {
            Double { bits: self.magnitude() }
        }
    }

    /// `self + rhs`, rounded to nearest.
    #[verifier::when_used_as_spec(spec_add)]
    pub fn add(self, rhs: Double) -> (r: Double)
        ensures
            r == self.spec_add(rhs),
    {
        raw_add(self, rhs).canonical()
    }

    /// `self - rhs`, rounded to nearest.
    #[verifier::when_used_as_spec(spec_sub)]
    pub fn sub(self, rhs: Double) -> (r: Double)
        ensures
            r == self.spec_sub(rhs),
    {
        raw_sub(self, rhs).canonical()
    }

    /// `self * rhs`, rounded to nearest.
    #[verifier::when_used_as_spec(spec_mul)]
    pub fn mul(self, rhs: Double) -> (r: Double)
        ensures
            r == self.spec_mul(rhs),
    {
        raw_mul(self, rhs).canonical()
    }

    /// `self / rhs`, rounded to nearest. Division by zero gives an infinity
    /// or a NaN.
    #[verifier::when_used_as_spec(spec_div)]
    pub fn div(self, rhs: Double) -> (r: Double)
        ensures
            r == self.spec_div(rhs),
    {
        raw_div(self, rhs).canonical()
    }

    /// The square root, rounded to nearest; a NaN below zero.
    #[verifier::when_used_as_spec(spec_sqrt)]
    pub fn sqrt(self) -> (r: Double)
        ensures
            r == self.spec_sqrt(),
    {
        raw_sqrt(self).canonical()
    }

    /// The double nearest to `n`.
    #[verifier::when_used_as_spec(spec_from_usize)]
    pub fn from_usize(n: usize) -> (r: Double)
        ensures
            r == Double::spec_from_usize(n),
    {
        raw_from_unsigned(n as u64)
    }

    /// The double nearest to `n`.
    #[verifier::when_used_as_spec(spec_from_i32)]
    pub fn from_i32(n: i32) -> (r: Double)
        ensures
            r == Double::spec_from_i32(n),
    {
        raw_from_signed(n as i64)
    }

    /// The lesser of two doubles. Which of two equal ones comes back is open.
    pub fn min(self, other: Double) -> (r: Double)
        ensures
            r.is_min_of(self, other),
    {
        glm_min(self, other).canonical()
    }

    /// The greater of two doubles. Which of two equal ones comes back is
    /// open.
    pub fn max(self, other: Double) -> (r: Double)
        ensures
            r.is_max_of(self, other),
    {
        glm_max(self, other).canonical()
    }

    /// Degrees to radians.
    #[verifier::when_used_as_spec(spec_radians)]
    pub fn radians(self) -> (r: Double)
        ensures
            r == self.spec_radians(),
    {
        glm_radians(self).canonical()
    }

    /// The integer part of the value, brought into `0..=255`.
    #[verifier::when_used_as_spec(spec_to_byte)]
    pub fn to_byte(self) -> (r: u8)
        ensures
            r == self.spec_to_byte(),
    {
        raw_to_byte(self)
    }
}

/// The doubles that are numbers are in a total order, in which the two
/// zeros are equal and nothing else is equal to another value.
pub proof fn lemma_order_is_total(a: Double, b: Double, c: Double)
    requires
        !a.is_nan(),
        !b.is_nan(),
        !c.is_nan(),
    ensures
        a.le(a),
        a.lt(b) <==> !b.le(a),
        a.le(b) && b.le(c) ==> a.le(c),
        a.lt(b) && b.le(c) ==> a.lt(c),
        a.le(b) && b.lt(c) ==> a.lt(c),
        a.le(b) && b.le(a) ==> a == b || (a.magnitude() == 0 && b.magnitude() == 0),
{
}

/// A NaN is neither below nor above nor equal to anything.
pub proof fn lemma_nan_is_unordered(a: Double, b: Double)
    requires
        a.is_nan(),
    ensures
        !a.lt(b),
        !b.lt(a),
        !a.le(b),
        !b.le(a),
{
}

/// `+` of std on two doubles. The sum is a function of the operands but for
/// the payload of a NaN: brought to the one NaN, it is `sum_of` of the bits.
#[verifier::external_body]
fn raw_add(a: Double, b: Double) -> (r: Double)
    ensures
        r.canonical().bits == sum_of(a.bits, b.bits),
{
    Double { bits: (Float::from_bits(a.bits) + Float::from_bits(b.bits)).to_bits() }
}

/// `-` of std on two doubles; as for `+`, the result is named up to the
/// payload of a NaN.
#[verifier::external_body]
fn raw_sub(a: Double, b: Double) -> (r: Double)
    ensures
        r.canonical().bits == difference_of(a.bits, b.bits),
{
    Double { bits: (Float::from_bits(a.bits) - Float::from_bits(b.bits)).to_bits() }
}

/// `*` of std on two doubles; as for `+`, the result is named up to the
/// payload of a NaN.
#[verifier::external_body]
fn raw_mul(a: Double, b: Double) -> (r: Double)
    ensures
        r.canonical().bits == product_of(a.bits, b.bits),
{
    Double { bits: (Float::from_bits(a.bits) * Float::from_bits(b.bits)).to_bits() }
}

/// `/` of std on two doubles, which divides by zero without a panic; as for
/// `+`, the result is named up to the payload of a NaN.
#[verifier::external_body]
fn raw_div(a: Double, b: Double) -> (r: Double)
    ensures
        r.canonical().bits == quotient_of(a.bits, b.bits),
{
    Double { bits: (Float::from_bits(a.bits) / Float::from_bits(b.bits)).to_bits() }
}

/// `sqrt` of std on a double, the correctly rounded root; the result is
/// named up to the payload of a NaN.
#[verifier::external_body]
fn raw_sqrt(a: Double) -> (r: Double)
    ensures
        r.canonical().bits == square_root_of(a.bits),
{
    Double { bits: Float::from_bits(a.bits).sqrt().to_bits() }
}

/// The cast of std from `u64` to a double, which rounds to nearest.
#[verifier::external_body]
fn raw_from_unsigned(n: u64) -> (r: Double)
    ensures
        r.bits == double_of_unsigned(n),
{
    Double { bits: (n as Float).to_bits() }
}

/// The cast of std from `i64` to a double, which rounds to nearest.
#[verifier::external_body]
fn raw_from_signed(n: i64) -> (r: Double)
    ensures
        r.bits == double_of_signed(n),
{
    Double { bits: (n as Float).to_bits() }
}

/// The cast of std from a double to `u8`: towards zero, saturating, 0 for a
/// NaN whatever its payload.
#[verifier::external_body]
fn raw_to_byte(a: Double) -> (r: u8)
    ensures
        r == byte_of(a.bits),
{
    Float::from_bits(a.bits) as u8
}

/// `glm::min` on two doubles, which is `min` of std: where one operand is a
/// NaN it returns the other, and of two that compare equal either one.
#[verifier::external_body]
fn glm_min(a: Double, b: Double) -> (r: Double)
    ensures
        r.canonical().is_min_of(a, b),
{
    Double { bits: glm::min(Float::from_bits(a.bits), Float::from_bits(b.bits)).to_bits() }
}

/// `glm::max` on two doubles, which is `max` of std: where one operand is a
/// NaN it returns the other, and of two that compare equal either one.
#[verifier::external_body]
fn glm_max(a: Double, b: Double) -> (r: Double)
    ensures
        r.canonical().is_max_of(a, b),
{
    Double { bits: glm::max(Float::from_bits(a.bits), Float::from_bits(b.bits)).to_bits() }
}

/// `glm::radians` on a double: the product with the constant that `glm`
/// has for pi / 180, [`DEGREE`], up to the payload of a NaN.
#[verifier::external_body]
fn glm_radians(a: Double) -> (r: Double)
    ensures
        r.canonical() == a.spec_radians(),
{
    Double { bits: glm::radians(Float::from_bits(a.bits)).to_bits() }
}

} // verus!
