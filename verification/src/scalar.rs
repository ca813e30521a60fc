//! Real numbers as the engine stores them.
//!
//! Components hold single-precision values that the library only ever moves
//! from one place to another. A `Scalar` keeps such a value by its IEEE-754
//! bit pattern, so that "copied unchanged" is plain equality of integers.
use vstd::prelude::*;

verus! {

/// A single-precision value, kept by its bit pattern.
#[derive(Clone, Copy, Debug, PartialEq, Eq, Hash, Structural)]
pub struct Scalar {
    pub bits: u32,
}

impl Scalar {
    /// The value with the given bit pattern.
    pub fn from_bits(bits: u32) -> (s: Self)
        ensures
            s.bits == bits,
    {
        Scalar { bits }
    }

    /// The bit pattern of the value.
    pub fn to_bits(&self) -> (bits: u32)
        ensures
            bits == self.bits,
    {
        self.bits
    }

    /// Positive zero, whose bit pattern is all zeroes.
    pub fn zero() -> (s: Self)
        ensures
            s.bits == 0,
    {
        Scalar { bits: 0 }
    }
}

} // verus!
