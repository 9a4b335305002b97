//! The two control bytes of the chip: the enable mask, which switches any
//! combination of ports on at once, and the select code, which names one.

use vstd::prelude::*;
use crate::bits::{bit, has_bit};

verus! {

/// Number of downstream ports of the chip.
pub const PORT_COUNT: u8 = 4;

/// The enable mask of a state vector: bit `i` carries `states[i]`, port 0
/// in the least significant bit.
pub open spec fn spec_port_code(states: Seq<bool>) -> u8
    recommends
        states.len() == PORT_COUNT,
{
    bit(states[0]) | (bit(states[1]) << 1) | (bit(states[2]) << 2) | (bit(states[3]) << 3)
}

/// The state vector that an enable mask stands for: port `i` is enabled
/// exactly when bit `i` of the mask is set.
pub open spec fn spec_port_states(code: u8) -> Seq<bool> {
    Seq::new(PORT_COUNT as nat, |i: int| has_bit(code, i))
}

/// The select code of a single port: the byte whose only set bit is the
/// port's own.
pub open spec fn spec_select_code(port: u8) -> u8
    recommends
        port < PORT_COUNT,
{
    1u8 << port
}

/// The state vector in which `port` is enabled and every other port is not.
pub open spec fn only_port(port: u8) -> Seq<bool> {
    Seq::new(PORT_COUNT as nat, |i: int| i == port)
}

/// Bit `i` of the enable mask is `states[i]`, and no bit above the last
/// port is set.
pub proof fn lemma_port_code_bits(states: Seq<bool>)
    requires
        states.len() == PORT_COUNT,
    ensures
        forall|i: int|
            0 <= i < 8 ==> #[trigger] has_bit(spec_port_code(states), i) == (i < PORT_COUNT
                && states[i]),
        spec_port_code(states) == bit(states[0]) + 2 * bit(states[1]) + 4 * bit(states[2]) + 8
            * bit(states[3]),
{
    let b0 = bit(states[0]);
    let b1 = bit(states[1]);
    let b2 = bit(states[2]);
    let b3 = bit(states[3]);
    let code = spec_port_code(states);
    assert(b0 <= 1 && b1 <= 1 && b2 <= 1 && b3 <= 1 ==> {
        &&& ((code >> 0u8) & 1u8 == 1u8) == (b0 == 1)
        &&& ((code >> 1u8) & 1u8 == 1u8) == (b1 == 1)
        &&& ((code >> 2u8) & 1u8 == 1u8) == (b2 == 1)
        &&& ((code >> 3u8) & 1u8 == 1u8) == (b3 == 1)
        &&& (code >> 4u8) & 1u8 == 0u8
        &&& (code >> 5u8) & 1u8 == 0u8
        &&& (code >> 6u8) & 1u8 == 0u8
        &&& (code >> 7u8) & 1u8 == 0u8
        &&& code == b0 + 2 * b1 + 4 * b2 + 8 * b3
    }) by (bit_vector)
        requires
            code == b0 | (b1 << 1) | (b2 << 2) | (b3 << 3),
    ;
    assert forall|i: int| 0 <= i < 8 implies #[trigger] has_bit(code, i) == (i < PORT_COUNT
        && states[i]) by {
        if i == 0 {
        } else if i == 1 {
        } else if i == 2 {
        } else if i == 3 {
        } else if i == 4 {
        } else if i == 5 {
        } else if i == 6 {
        } else {
            assert(i == 7);
        }
    }
}

/// Decoding an enable mask gives back the state vector it was encoded from.
pub proof fn lemma_decode_encode(states: Seq<bool>)
    requires
        states.len() == PORT_COUNT,
    ensures
        spec_port_states(spec_port_code(states)) == states,
{
    lemma_port_code_bits(states);
    assert(spec_port_states(spec_port_code(states)) =~= states);
}

/// Encoding a decoded mask gives back the mask's four port bits.
pub proof fn lemma_encode_decode(code: u8)
    ensures
        spec_port_code(spec_port_states(code)) == code & 0b1111,
{
    let states = spec_port_states(code);
    let b0 = bit(states[0]);
    let b1 = bit(states[1]);
    let b2 = bit(states[2]);
    let b3 = bit(states[3]);
    let again = spec_port_code(states);
    assert({
        &&& (b0 == 1) == ((code >> 0u8) & 1u8 == 1u8)
        &&& (b1 == 1) == ((code >> 1u8) & 1u8 == 1u8)
        &&& (b2 == 1) == ((code >> 2u8) & 1u8 == 1u8)
        &&& (b3 == 1) == ((code >> 3u8) & 1u8 == 1u8)
        &&& b0 <= 1 && b1 <= 1 && b2 <= 1 && b3 <= 1
    });
    assert(again == code & 0b1111) by (bit_vector)
        requires
            again == b0 | (b1 << 1) | (b2 << 2) | (b3 << 3),
            (b0 == 1) == ((code >> 0u8) & 1u8 == 1u8),
            (b1 == 1) == ((code >> 1u8) & 1u8 == 1u8),
            (b2 == 1) == ((code >> 2u8) & 1u8 == 1u8),
            (b3 == 1) == ((code >> 3u8) & 1u8 == 1u8),
            b0 <= 1 && b1 <= 1 && b2 <= 1 && b3 <= 1,
    ;
}

/// The select code of a port is the enable mask that switches on that port
/// and no other, so exactly one bit of it is set.
pub proof fn lemma_select_code_is_single_port(port: u8)
    requires
        port < PORT_COUNT,
    ensures
        spec_select_code(port) == spec_port_code(only_port(port)),
        forall|i: int| 0 <= i < 8 ==> #[trigger] has_bit(spec_select_code(port), i) == (i == port),
        spec_select_code(port) == if port == 0 {
            0b0001u8
        } else if port == 1 {
            0b0010u8
        } else if port == 2 {
            0b0100u8
        } else {
            0b1000u8
        },
{
    lemma_port_code_bits(only_port(port));
    assert(1u8 << 0u8 == 1u8 && 1u8 << 1u8 == 2u8 && 1u8 << 2u8 == 4u8 && 1u8 << 3u8 == 8u8)
        by (bit_vector);
    assert(forall|x: u8| #[trigger] (x | 0u8) == x) by (bit_vector);
    assert(forall|x: u8| #[trigger] (0u8 | x) == x) by (bit_vector);
    assert(0u8 << 1 == 0u8 && 0u8 << 2 == 0u8 && 0u8 << 3 == 0u8) by (bit_vector);
}

} // verus!
