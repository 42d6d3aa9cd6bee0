//! Measured quantities.
//!
//! A measurement is a binary64 value. The service never computes with one: it
//! carries it from a request to storage and from storage to a response. It is
//! therefore held by its bit pattern, which is all that has to be known to
//! tell a finite value from an infinity or a NaN.

use vstd::prelude::*;

verus! {

/// A binary64 value, held by its IEEE 754 bit pattern.
#[derive(Clone, Copy, Debug, PartialEq, Eq, Structural)]
pub struct Real {
    pub bits: u64,
}

/// The exponent field of a bit pattern: eleven bits above the 52 bits of the
/// fraction.
pub open spec fn exponent_field(bits: u64) -> u64 {
    (bits >> 52) & 0x7ff
}

impl Real {
    /// A value is finite unless every bit of its exponent field is set.
    pub open spec fn finite(self) -> bool {
        exponent_field(self.bits) != 0x7ff
    }

    pub fn from_bits(bits: u64) -> (r: Real)
        ensures
            r.bits == bits,
    {
        Real { bits }
    }

    pub fn to_bits(&self) -> (bits: u64)
        ensures
            bits == self.bits,
    {
        self.bits
    }

    pub fn is_finite(&self) -> (b: bool)
        ensures
            b == self.finite(),
    {
        (self.bits >> 52) & 0x7ff != 0x7ff
    }
}

} // verus!
