//! Single bits of a control byte.

use vstd::prelude::*;

verus! {

/// A boolean as a bit: 1 when it holds, 0 when it does not.
pub open spec fn bit(high: bool) -> u8 {
    if high {
        1u8
    } else {
        0u8
    }
}

/// Whether bit `index` of `byte` is set, counting from the least
/// significant bit. No bit is set at an index outside `0..8`.
pub open spec fn has_bit(byte: u8, index: int) -> bool {
    0 <= index < 8 && (byte >> (index as u8)) & 1u8 == 1u8
}

} // verus!
