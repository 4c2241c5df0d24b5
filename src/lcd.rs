//! The character display's four-bit data bus.
use vstd::prelude::*;

verus! {

/// The display's pins: register select, enable, and data lines 4 to 7.
#[derive(Clone, Copy, Debug, PartialEq, Eq, Structural)]
pub struct LCDHardware {}

/// Level of data line `4 + i` when the low nibble of `data` is sent.
pub open spec fn bit_of(data: u8, i: int) -> bool {
    (data as int / pow2(i)) % 2 == 1
}

pub open spec fn pow2(i: int) -> int
    decreases i,
{
    if i <= 0 { 1 } else { 2 * pow2(i - 1) }
}

impl LCDHardware {
    /// Levels of data lines 4, 5, 6 and 7 for the low nibble of `data`.
    pub fn data_levels(data: u8) -> (r: [bool; 4])
        ensures
            forall|i: int| 0 <= i < 4 ==> #[trigger] r[i] == bit_of(data, i),
    {
        let mut levels = [false; 4];
        let mut rest: u8 = data;
        let mut i: usize = 0;
        while i < 4
            invariant
                i <= 4,
                rest as int == data as int / pow2(i as int),
                forall|j: int| 0 <= j < i ==> #[trigger] levels[j] == bit_of(data, j),
            decreases 4 - i,
        {
            levels[i] = rest % 2 == 1;
            proof {
                assert(pow2(i + 1) == 2 * pow2(i as int));
                assert(pow2(i as int) > 0) by {
                    assert(pow2(0) == 1 && pow2(1) == 2 && pow2(2) == 4 && pow2(3) == 8);
                }
                vstd::arithmetic::div_mod::lemma_div_denominator(data as int, pow2(i as int), 2);
            }
            rest = rest / 2;
            i = i + 1;
        }
        levels
    }
}

} // verus!
