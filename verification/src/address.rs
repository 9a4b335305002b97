//! The address of the multiplexer chip, derived from its address pins.

use vstd::prelude::*;
use crate::bits::bit;

verus! {

/// Address used when neither pins nor an explicit address are configured.
pub const DEFAULT_ADDRESS: u8 = 0x70;

/// Fixed chip-family prefix that the three pin bits are combined with.
pub const ADDRESS_BASE: u8 = 0b1110_0000;

/// The address selected by the three hardware address pins: the family
/// prefix with `a0` in bit 0, `a1` in bit 1 and `a2` in bit 2.
pub open spec fn spec_address_from_pins(a0: bool, a1: bool, a2: bool) -> u8 {
    ADDRESS_BASE | bit(a0) | (bit(a1) << 1) | (bit(a2) << 2)
}

/// Resolves the chip's address from the state of its address pins.
pub fn address_from_pins(a0: bool, a1: bool, a2: bool) -> (address: u8)
    ensures
        address == spec_address_from_pins(a0, a1, a2),
        address == ADDRESS_BASE + bit(a0) + 2 * bit(a1) + 4 * bit(a2),
{
    let mut address: u8 = 0b1110_0000;
    if a0 {
        address |= 0b0000_0001;
    }
    if a1 {
        address |= 0b0000_0010;
    }
    if a2 {
        address |= 0b0000_0100;
    }
    proof {
        assert(forall|x: u8| #[trigger] (x | 0u8) == x) by (bit_vector);
        assert(1u8 << 1 == 2u8 && 1u8 << 2 == 4u8) by (bit_vector);
        assert(0u8 << 1 == 0u8 && 0u8 << 2 == 0u8) by (bit_vector);
        lemma_address_bits(a0, a1, a2);
    }
    address
}

/// The pin bits occupy the three low bits and nothing else: the address
/// lies in `0xE0..=0xE7`, its low three bits read back the pins, and the
/// family prefix is untouched.
pub proof fn lemma_address_bits(a0: bool, a1: bool, a2: bool)
    ensures
        0xE0 <= spec_address_from_pins(a0, a1, a2) <= 0xE7,
        spec_address_from_pins(a0, a1, a2) & 0b1111_1000 == ADDRESS_BASE,
        (spec_address_from_pins(a0, a1, a2) & 0b001 != 0) == a0,
        (spec_address_from_pins(a0, a1, a2) & 0b010 != 0) == a1,
        (spec_address_from_pins(a0, a1, a2) & 0b100 != 0) == a2,
        spec_address_from_pins(a0, a1, a2) == ADDRESS_BASE + bit(a0) + 2 * bit(a1) + 4 * bit(a2),
{
    let b0 = bit(a0);
    let b1 = bit(a1);
    let b2 = bit(a2);
    let r = 0b1110_0000u8 | b0 | (b1 << 1) | (b2 << 2);
    assert(b0 <= 1 && b1 <= 1 && b2 <= 1 ==> {
        &&& 0xE0 <= r <= 0xE7
        &&& r & 0b1111_1000 == 0b1110_0000
        &&& (r & 0b001 != 0) == (b0 == 1)
        &&& (r & 0b010 != 0) == (b1 == 1)
        &&& (r & 0b100 != 0) == (b2 == 1)
        &&& r == 0xE0 + b0 + 2 * b1 + 4 * b2
    }) by (bit_vector)
        requires
            r == 0b1110_0000u8 | b0 | (b1 << 1) | (b2 << 2),
    ;
}

} // verus!
