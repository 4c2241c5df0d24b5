//! Turning the thermocouple converter's two-byte reading into degrees.
use vstd::prelude::*;

verus! {

/// The thermocouple converter; the bus transaction itself lives with the caller.
#[derive(Clone, Copy, Debug, PartialEq, Eq, Structural)]
pub struct Temperature {}

/// Whole degrees in a reading whose bytes, taken little-endian, hold the
/// quarter-degree count in bits 3 to 14.
pub open spec fn degrees_of(a: u8, b: u8) -> nat {
    ((a as nat + 256 * b as nat) / 32) % 1024
}

impl Temperature {
    /// Whole degrees from the two bytes read off the bus, in the order received.
    pub fn from_reading(a: u8, b: u8) -> (r: u16)
        ensures
            r as nat == degrees_of(a, b),
            r < 1024,
    {
        let word: u32 = a as u32 + 256 * (b as u32);
        ((word / 32) % 1024) as u16
    }
}

} // verus!
