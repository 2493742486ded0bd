//! Numeric literal values.
//!
//! A numeric literal is kept as the bit pattern of its IEEE 754 double
//! (sign, eleven exponent bits, fifty-two fraction bits) together with the
//! text it is written out as. All arithmetic on the pattern is integer
//! arithmetic; whoever builds a value supplies both parts.

use vstd::prelude::*;
use vstd::std_specs::cmp::PartialEqSpecImpl;

verus! {

/// Mask of the eleven exponent bits of a double.
pub const EXPONENT_MASK: u64 = 0x7ff0_0000_0000_0000;

/// Mask of the fifty-two fraction bits of a double.
pub const FRACTION_MASK: u64 = 0x000f_ffff_ffff_ffff;

/// Mask of every bit but the sign.
pub const MAGNITUDE_MASK: u64 = 0x7fff_ffff_ffff_ffff;

/// The pattern encodes "not a number": all exponent bits set and a
/// fraction that is not zero.
pub open spec fn is_nan_bits(bits: u64) -> bool {
    bits & EXPONENT_MASK == EXPONENT_MASK && bits & FRACTION_MASK != 0
}

/// The pattern encodes zero of either sign.
pub open spec fn is_zero_bits(bits: u64) -> bool {
    bits & MAGNITUDE_MASK == 0
}

/// Numeric equality of two doubles given by their patterns: a NaN equals
/// nothing (itself included), the two zeros equal each other, and every
/// other value equals exactly the same pattern.
pub open spec fn same_number(a: u64, b: u64) -> bool {
    &&& !is_nan_bits(a)
    &&& !is_nan_bits(b)
    &&& (a == b || (is_zero_bits(a) && is_zero_bits(b)))
}

/// A numeric literal: its double as a bit pattern and its written form.
#[derive(Debug)]
pub struct NumberValue {
    pub bits: u64,
    pub text: String,
}

/// Mathematical model of a [`NumberValue`].
pub struct NumberView {
    pub bits: u64,
    pub text: Seq<char>,
}

impl View for NumberValue {
    type V = NumberView;

    open spec fn view(&self) -> NumberView {
        NumberView { bits: self.bits, text: self.text@ }
    }
}

impl NumberValue {
    /// Pairs a bit pattern with the text the number is written out as.
    pub fn new(bits: u64, text: String) -> (value: Self)
        ensures
            value.bits == bits,
            value.text == text,
    {
        NumberValue { bits, text }
    }

    /// Whether the value is a NaN.
    pub fn is_nan(&self) -> (nan: bool)
        ensures
            nan == is_nan_bits(self.bits),
    {
        self.bits & EXPONENT_MASK == EXPONENT_MASK && self.bits & FRACTION_MASK != 0
    }

    /// Whether the value is zero of either sign.
    pub fn is_zero(&self) -> (zero: bool)
        ensures
            zero == is_zero_bits(self.bits),
    {
        self.bits & MAGNITUDE_MASK == 0
    }

    /// Numeric equality; the written forms play no part.
    pub fn same_value(&self, other: &NumberValue) -> (same: bool)
        ensures
            same == same_number(self.bits, other.bits),
    {
        !self.is_nan() && !other.is_nan() && (self.bits == other.bits || (self.is_zero()
            && other.is_zero()))
    }
}

impl Clone for NumberValue {
    fn clone(&self) -> (copy: Self)
        ensures
            copy == *self,
    {
        NumberValue { bits: self.bits, text: self.text.clone() }
    }
}

impl PartialEq for NumberValue {
    fn eq(&self, other: &NumberValue) -> (same: bool) {
        self.same_value(other)
    }
}

impl PartialEqSpecImpl for NumberValue {
    open spec fn obeys_eq_spec() -> bool {
        true
    }

    open spec fn eq_spec(&self, other: &NumberValue) -> bool {
        same_number(self.bits, other.bits)
    }
}

} // verus!
