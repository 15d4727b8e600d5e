//! Floating-point fields, carried without floating-point arithmetic.

use vstd::prelude::*;

verus! {

/// The bit pattern of the value one.
pub const ONE_BITS: u64 = 0x3ff0_0000_0000_0000;

/// A protobuf `double`, carried as the bit pattern of its IEEE 754 encoding. The
/// library never computes with such a value; it only hands it on.
#[derive(Clone, Copy, Debug, PartialEq, Eq, Structural)]
pub struct Double {
    /// The 64 bits of the encoding.
    pub bits: u64,
}

impl DeepView for Double {
    type V = Double;

    open spec fn deep_view(&self) -> Double {
        *self
    }
}

impl Double {
    /// The value with the given bit pattern.
    pub fn from_bits(bits: u64) -> (value: Self)
        ensures
            value.bits == bits,
    {
        Double { bits }
    }

    /// The bit pattern of the value.
    pub fn to_bits(self) -> (bits: u64)
        ensures
            bits == self.bits,
    {
        self.bits
    }
}

} // verus!
