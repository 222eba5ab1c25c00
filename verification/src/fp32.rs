//! Single-precision values carried as raw IEEE 754 bit patterns.
//!
//! The fitting logic never touches machine floating point directly: every
//! quantity is a [`Real32`], a wrapper around the 32 raw bits.  Sign, zero
//! and NaN tests, and negation, are pure bit manipulations and are verified
//! here against their bit-level definitions.  Rounded arithmetic (addition,
//! subtraction, multiplication, division) is delegated to the
//! `rustc_apfloat` software implementation of IEEE 754, which also works on
//! raw bit patterns; those operations are deterministic functions of the
//! operand bits, named below by uninterpreted spec functions.

use vstd::prelude::*;
use rustc_apfloat::Float;

verus! {

/// A single-precision IEEE 754 value, represented by its raw bit pattern.
#[derive(Clone, Copy, Debug, PartialEq, Eq, Structural)]
pub struct Real32 {
    pub bits: u32,
}

/// The bit pattern of +0.0.
pub open const BITS_ZERO: u32 = 0x0000_0000;

/// The bit pattern of 1.0.
pub open const BITS_ONE: u32 = 0x3F80_0000;

/// The bit pattern of 2.0.
pub open const BITS_TWO: u32 = 0x4000_0000;

/// The bit pattern of 4.0.
pub open const BITS_FOUR: u32 = 0x4080_0000;

/// The bit pattern of -2.0.
pub open const BITS_NEG_TWO: u32 = 0xC000_0000;

/// The magnitude part of a bit pattern: everything but the sign bit.
pub open spec fn magnitude_bits(b: u32) -> u32 {
    b & 0x7FFF_FFFF
}

/// The pattern encodes a NaN: the magnitude lies strictly above that of
/// infinity (exponent all ones, fraction nonzero).
pub open spec fn is_nan_bits(b: u32) -> bool {
    magnitude_bits(b) > 0x7F80_0000
}

/// The pattern encodes +0.0 or -0.0.
pub open spec fn is_zero_bits(b: u32) -> bool {
    magnitude_bits(b) == 0
}

/// The encoded value compares strictly below zero under the IEEE 754
/// ordering: the sign bit is set, the magnitude is nonzero (so -0.0 is
/// excluded) and the pattern is not a NaN (NaN compares below nothing).
pub open spec fn is_below_zero_bits(b: u32) -> bool {
    b >= 0x8000_0000 && !is_zero_bits(b) && !is_nan_bits(b)
}

/// The absolute value of the encoded number compares strictly above zero:
/// the pattern is neither a zero nor a NaN.
pub open spec fn has_positive_magnitude(b: u32) -> bool {
    !is_zero_bits(b) && !is_nan_bits(b)
}

/// IEEE 754 negation: the sign bit is flipped, nothing else changes.
pub open spec fn neg_bits(b: u32) -> u32 {
    b ^ 0x8000_0000
}

/// The sum of two single-precision values, rounded to nearest-even,
/// as a function of the operand bit patterns.
pub uninterp spec fn add_bits(a: u32, b: u32) -> u32;

/// The difference of two single-precision values, rounded to nearest-even,
/// as a function of the operand bit patterns.
pub uninterp spec fn sub_bits(a: u32, b: u32) -> u32;

/// The product of two single-precision values, rounded to nearest-even,
/// as a function of the operand bit patterns.
pub uninterp spec fn mul_bits(a: u32, b: u32) -> u32;

/// The quotient of two single-precision values, rounded to nearest-even,
/// as a function of the operand bit patterns.
pub uninterp spec fn div_bits(a: u32, b: u32) -> u32;

impl Real32 {
    /// Whether the value compares strictly below zero, as `v < 0.0` does
    /// for IEEE 754 single precision: negative sign, nonzero magnitude,
    /// not a NaN.
    pub fn is_below_zero(self) -> (r: bool)
        ensures
            r == is_below_zero_bits(self.bits),
    {
        self.bits >= 0x8000_0000 && (self.bits & 0x7FFF_FFFF) != 0 && (self.bits & 0x7FFF_FFFF)
            <= 0x7F80_0000
    }

    /// Whether the absolute value compares strictly above zero, as
    /// `v.abs() > 0.0` does for IEEE 754 single precision: the value is
    /// neither a zero nor a NaN.
    pub fn has_positive_magnitude(self) -> (r: bool)
        ensures
            r == has_positive_magnitude(self.bits),
    {
        (self.bits & 0x7FFF_FFFF) != 0 && (self.bits & 0x7FFF_FFFF) <= 0x7F80_0000
    }

    /// IEEE 754 negation, a pure flip of the sign bit.
    pub fn neg(self) -> (r: Real32)
        ensures
            r.bits == neg_bits(self.bits),
    {
        Real32 { bits: self.bits ^ 0x8000_0000 }
    }
}

impl Real32 {
    /// Relies on `rustc_apfloat::ieee::Single`'s `+` operator: IEEE 754
    /// single-precision addition, rounded to nearest-even, a deterministic
    /// function of the operand bit patterns.
    #[verifier::external_body]
    pub(crate) fn add(self, o: Real32) -> (r: Real32)
        ensures
            r.bits == add_bits(self.bits, o.bits),
    {
        let x = rustc_apfloat::ieee::Single::from_bits(self.bits as u128);
        let y = rustc_apfloat::ieee::Single::from_bits(o.bits as u128);
        Real32 { bits: (x + y).value.to_bits() as u32 }
    }

    /// Relies on `rustc_apfloat::ieee::Single`'s `-` operator: IEEE 754
    /// single-precision subtraction, rounded to nearest-even, a deterministic
    /// function of the operand bit patterns.
    #[verifier::external_body]
    pub(crate) fn sub(self, o: Real32) -> (r: Real32)
        ensures
            r.bits == sub_bits(self.bits, o.bits),
    {
        let x = rustc_apfloat::ieee::Single::from_bits(self.bits as u128);
        let y = rustc_apfloat::ieee::Single::from_bits(o.bits as u128);
        Real32 { bits: (x - y).value.to_bits() as u32 }
    }

    /// Relies on `rustc_apfloat::ieee::Single`'s `*` operator: IEEE 754
    /// single-precision multiplication, rounded to nearest-even, a
    /// deterministic function of the operand bit patterns.
    #[verifier::external_body]
    pub(crate) fn mul(self, o: Real32) -> (r: Real32)
        ensures
            r.bits == mul_bits(self.bits, o.bits),
    {
        let x = rustc_apfloat::ieee::Single::from_bits(self.bits as u128);
        let y = rustc_apfloat::ieee::Single::from_bits(o.bits as u128);
        Real32 { bits: (x * y).value.to_bits() as u32 }
    }

    /// Relies on `rustc_apfloat::ieee::Single`'s `/` operator: IEEE 754
    /// single-precision division, rounded to nearest-even, a deterministic
    /// function of the operand bit patterns.
    #[verifier::external_body]
    pub(crate) fn div(self, o: Real32) -> (r: Real32)
        ensures
            r.bits == div_bits(self.bits, o.bits),
    {
        let x = rustc_apfloat::ieee::Single::from_bits(self.bits as u128);
        let y = rustc_apfloat::ieee::Single::from_bits(o.bits as u128);
        Real32 { bits: (x / y).value.to_bits() as u32 }
    }
}

} // verus!
