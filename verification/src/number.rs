//! Floating-point numbers that the library carries from a response to a result.

use vstd::prelude::*;

verus! {

/// A 64-bit IEEE 754 floating-point number held as its bit pattern, the value that
/// `f64::to_bits` gives and `f64::from_bits` takes back. The library computes
/// nothing with such numbers: it carries them from where they are read to where
/// they are returned.
#[derive(Clone, Copy, Debug, Default, PartialEq, Eq)]
pub struct F64Bits(pub u64);

impl F64Bits {
    /// The bit pattern of positive zero, `0.0`.
    pub fn zero() -> (r: F64Bits)
        ensures
            r.0 == 0,
    {
        F64Bits(0)
    }
}

} // verus!
