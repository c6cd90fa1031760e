//! The strength of one actuation.

use vstd::prelude::*;

verus! {

/// The bits of `1.0` as an IEEE 754 single-precision number.
pub const FULL_BITS: u32 = 0x3f80_0000;

/// The bits of `0.5` as an IEEE 754 single-precision number.
pub const HALF_BITS: u32 = 0x3f00_0000;

/// How hard the actuator strikes.
///
/// The actuator takes a single-precision number, by convention between zero
/// and one. Nothing here computes with it: it is carried as its 32 bits and
/// handed to the actuator untouched, whatever it holds.
#[derive(Clone, Copy, Debug, PartialEq, Eq, Structural)]
pub struct Intensity {
    pub bits: u32,
}

impl Intensity {
    /// The intensity with the given IEEE 754 single-precision bits.
    pub fn from_bits(bits: u32) -> (intensity: Intensity)
        ensures
            intensity.bits == bits,
    {
        Intensity { bits }
    }

    /// The IEEE 754 single-precision bits of this intensity.
    pub fn to_bits(self) -> (bits: u32)
        ensures
            bits == self.bits,
    {
        self.bits
    }

    /// Full strength, `1.0`.
    pub fn full() -> (intensity: Intensity)
        ensures
            intensity.bits == FULL_BITS,
    {
        Intensity { bits: FULL_BITS }
    }

    /// Half strength, `0.5`.
    pub fn half() -> (intensity: Intensity)
        ensures
            intensity.bits == HALF_BITS,
    {
        Intensity { bits: HALF_BITS }
    }

    /// No strength, `0.0`.
    pub fn zero() -> (intensity: Intensity)
        ensures
            intensity.bits == 0,
    {
        Intensity { bits: 0 }
    }
}

} // verus!
