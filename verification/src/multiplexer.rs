//! The combination-enable interface: any set of ports switched on at once.

use vstd::prelude::*;
use crate::address::{address_from_pins, spec_address_from_pins, DEFAULT_ADDRESS};
use crate::bits::{bit, has_bit};
use crate::control::ControlWrite;
use crate::error::MultiplexerError;
use crate::ports::{
    lemma_port_code_bits, spec_port_code, spec_port_states, PORT_COUNT,
};

verus! {

/// Whether a port is connected to the upstream bus.
#[derive(Copy, Clone, Debug)]
pub enum PortState {
    Enabled,
    Disabled,
}

impl PortState {
    /// Whether this is the enabled state.
    pub open spec fn spec_is_enabled(self) -> bool {
        self is Enabled
    }
}

impl From<bool> for PortState {
    fn from(value: bool) -> (state: Self) {
        match value {
            true => PortState::Enabled,
            false => PortState::Disabled,
        }
    }
}

impl vstd::std_specs::convert::FromSpecImpl<bool> for PortState {
    open spec fn obeys_from_spec() -> bool {
        true
    }

    open spec fn from_spec(value: bool) -> Self {
        if value {
            PortState::Enabled
        } else {
            PortState::Disabled
        }
    }
}

impl From<PortState> for bool {
    fn from(state: PortState) -> (enabled: bool) {
        match state {
            PortState::Enabled => true,
            PortState::Disabled => false,
        }
    }
}

impl vstd::std_specs::convert::FromSpecImpl<PortState> for bool {
    open spec fn obeys_from_spec() -> bool {
        true
    }

    open spec fn from_spec(state: PortState) -> bool {
        state.spec_is_enabled()
    }
}

/// What a [`Multiplexer`] stands for: the chip's address and, for each
/// port, whether it is enabled.
pub struct MultiplexerView {
    pub address: u8,
    pub ports: Seq<bool>,
}

/// The chip's address and the port states that the caller last asked for.
/// The states are bookkeeping on this side: nothing is read back from the
/// chip.
#[derive(Copy, Clone, Debug)]
pub struct Multiplexer {
    address: u8,
    state: [bool; 4],
}

impl View for Multiplexer {
    type V = MultiplexerView;

    closed spec fn view(&self) -> MultiplexerView {
        MultiplexerView { address: self.address, ports: self.state@ }
    }
}

impl Multiplexer {
    /// There is one state per port.
    pub proof fn lemma_port_count(&self)
        ensures
            self@.ports.len() == PORT_COUNT,
    {
    }

    /// The write that brings the chip in line with the states held here.
    pub open spec fn spec_control_write(&self) -> ControlWrite {
        ControlWrite { address: self@.address, code: spec_port_code(self@.ports) }
    }

    /// A multiplexer at the default address with every port disabled.
    pub fn new() -> (mux: Self)
        ensures
            mux@.address == DEFAULT_ADDRESS,
            mux@.ports == Seq::new(PORT_COUNT as nat, |i: int| false),
    {
        let mux = Self { address: 0x70, state: [false;4] };
        assert(mux@.ports =~= Seq::new(PORT_COUNT as nat, |i: int| false));
        mux
    }

    /// Sets the address according to the hardware address pins.
    pub fn with_address_pins(self, a0: bool, a1: bool, a2: bool) -> (mux: Self)
        ensures
            mux@.address == spec_address_from_pins(a0, a1, a2),
            mux@.ports == self@.ports,
    {
        let mut mux = self;
        mux.address = address_from_pins(a0, a1, a2);
        mux
    }

    /// Sets the address, whatever it was before.
    pub fn with_address(self, address: u8) -> (mux: Self)
        ensures
            mux@.address == address,
            mux@.ports == self@.ports,
    {
        let mut mux = self;
        mux.address = address;
        mux
    }

    /// The address of the chip.
    pub fn address(&self) -> (address: u8)
        ensures
            address == self@.address,
    {
        self.address
    }

    /// The state of every port, port 0 first.
    pub fn ports(&self) -> (ports: [bool; 4])
        ensures
            ports@ == self@.ports,
    {
        self.state
    }

    /// The write that brings the chip in line with the states held here.
    pub fn control_write(&self) -> (write: ControlWrite)
        ensures
            write == self.spec_control_write(),
    {
        ControlWrite { address: self.address, code: Self::port_code(self.state) }
    }

    /// Encodes a state vector as the enable mask: bit `i` carries
    /// `states[i]`, and no other bit is set.
    pub fn port_code(states: [bool; 4]) -> (code: u8)
        ensures
            code == spec_port_code(states@),
            forall|i: int|
                0 <= i < 8 ==> #[trigger] has_bit(code, i) == (i < PORT_COUNT && states@[i]),
            code == bit(states@[0]) + 2 * bit(states@[1]) + 4 * bit(states@[2]) + 8 * bit(
                states@[3],
            ),
    {
        let mut code: u8 = 0;
        if states[0] {
            code |= 0b000_0001;
        }
        if states[1] {
            code |= 0b000_0010;
        }
        if states[2] {
            code |= 0b000_0100;
        }
        if states[3] {
            code |= 0b000_1000;
        }
        proof {
            assert(forall|x: u8| #[trigger] (x | 0u8) == x) by (bit_vector);
            assert(forall|x: u8| #[trigger] (0u8 | x) == x) by (bit_vector);
            assert(1u8 << 1 == 2u8 && 1u8 << 2 == 4u8 && 1u8 << 3 == 8u8) by (bit_vector);
            assert(0u8 << 1 == 0u8 && 0u8 << 2 == 0u8 && 0u8 << 3 == 0u8) by (bit_vector);
            lemma_port_code_bits(states@);
        }
        code
    }

    /// Decodes an enable mask into the state vector it stands for. Bits
    /// above the last port are ignored.
    pub fn port_states(code: u8) -> (states: [bool; 4])
        ensures
            states@ == spec_port_states(code),
    {
        let states = [
            code & 0b0001 != 0,
            code & 0b0010 != 0,
            code & 0b0100 != 0,
            code & 0b1000 != 0,
        ];
        proof {
            assert((code & 0b0001 != 0) == ((code >> 0u8) & 1u8 == 1u8)) by (bit_vector);
            assert((code & 0b0010 != 0) == ((code >> 1u8) & 1u8 == 1u8)) by (bit_vector);
            assert((code & 0b0100 != 0) == ((code >> 2u8) & 1u8 == 1u8)) by (bit_vector);
            assert((code & 0b1000 != 0) == ((code >> 3u8) & 1u8 == 1u8)) by (bit_vector);
            assert(states@ =~= spec_port_states(code));
        }
        states
    }

    /// Enables or disables one port and returns the write that tells the
    /// chip. A port that does not exist is refused and nothing changes.
    pub fn set_port<E>(&mut self, port: u8, state: bool) -> (outcome: Result<
        ControlWrite,
        MultiplexerError<E>,
    >)
        ensures
            port >= PORT_COUNT ==> outcome == Err::<ControlWrite, MultiplexerError<E>>(
                MultiplexerError::PortError,
            ) && *final(self) == *old(self),
            port < PORT_COUNT ==> outcome == Ok::<ControlWrite, MultiplexerError<E>>(
                final(self).spec_control_write(),
            ) && final(self)@.address == old(self)@.address && final(self)@.ports == old(
                self,
            )@.ports.update(port as int, state),
    {
        if port >= 4 {
            return Err(MultiplexerError::PortError);
        }
        self.state[port as usize] = state;
        let code = Self::port_code(self.state);
        Ok(ControlWrite { address: self.address, code })
    }

    /// Replaces the state of every port and returns the single write that
    /// tells the chip.
    pub fn set_ports(&mut self, ports: [bool; 4]) -> (write: ControlWrite)
        ensures
            final(self)@.address == old(self)@.address,
            final(self)@.ports == ports@,
            write == final(self).spec_control_write(),
    {
        self.state = ports;
        let code = Self::port_code(ports);
        ControlWrite { address: self.address, code }
    }

    /// Disables every port and returns the write that tells the chip.
    pub fn set_ports_disabled(&mut self) -> (write: ControlWrite)
        ensures
            final(self)@.address == old(self)@.address,
            final(self)@.ports == Seq::new(PORT_COUNT as nat, |i: int| false),
            write == final(self).spec_control_write(),
            write.code == 0,
    {
        let write = self.set_ports([false;4]);
        proof {
            assert(self@.ports =~= Seq::new(PORT_COUNT as nat, |i: int| false));
            assert(0u8 | (0u8 << 1) | (0u8 << 2) | (0u8 << 3) == 0u8) by (bit_vector);
        }
        write
    }

    /// Enables every port and returns the write that tells the chip.
    pub fn set_ports_enabled(&mut self) -> (write: ControlWrite)
        ensures
            final(self)@.address == old(self)@.address,
            final(self)@.ports == Seq::new(PORT_COUNT as nat, |i: int| true),
            write == final(self).spec_control_write(),
            write.code == 0b1111,
    {
        let write = self.set_ports([true;4]);
        proof {
            assert(self@.ports =~= Seq::new(PORT_COUNT as nat, |i: int| true));
            assert(1u8 | (1u8 << 1) | (1u8 << 2) | (1u8 << 3) == 0b1111u8) by (bit_vector);
        }
        write
    }

    /// The multiplexer with one port enabled or disabled. A port that does
    /// not exist is refused; the multiplexer is then not handed back.
    pub fn with_port<E>(self, port: u8, state: bool) -> (outcome: Result<
        Self,
        MultiplexerError<E>,
    >)
        ensures
            port >= PORT_COUNT ==> outcome == Err::<Self, MultiplexerError<E>>(
                MultiplexerError::PortError,
            ),
            port < PORT_COUNT ==> (outcome matches Ok(mux) && mux@.address == self@.address
                && mux@.ports == self@.ports.update(port as int, state)),
    {
        let mut mux = self;
        match mux.set_port::<E>(port, state) {
            Ok(_) => Ok(mux),
            Err(e) => Err(e),
        }
    }

    /// The multiplexer with the state of every port replaced.
    pub fn with_ports(self, ports: [bool; 4]) -> (mux: Self)
        ensures
            mux@.address == self@.address,
            mux@.ports == ports@,
    {
        let mut mux = self;
        let _ = mux.set_ports(ports);
        mux
    }

    /// The multiplexer with every port disabled.
    pub fn with_ports_disabled(self) -> (mux: Self)
        ensures
            mux@.address == self@.address,
            mux@.ports == Seq::new(PORT_COUNT as nat, |i: int| false),
    {
        let mux = self.with_ports([false;4]);
        assert(mux@.ports =~= Seq::new(PORT_COUNT as nat, |i: int| false));
        mux
    }

    /// The multiplexer with every port enabled.
    pub fn with_ports_enabled(self) -> (mux: Self)
        ensures
            mux@.address == self@.address,
            mux@.ports == Seq::new(PORT_COUNT as nat, |i: int| true),
    {
        let mux = self.with_ports([true;4]);
        assert(mux@.ports =~= Seq::new(PORT_COUNT as nat, |i: int| true));
        mux
    }

    /// Classifies how the transport answered a control write: a failure,
    /// whatever its cause, is a write failure.
    pub fn i2c_write<E>(outcome: Result<(), E>) -> (result: Result<(), MultiplexerError<E>>)
        ensures
            outcome.is_ok() ==> result == Ok::<(), MultiplexerError<E>>(()),
            outcome.is_err() ==> result == Err::<(), MultiplexerError<E>>(
                MultiplexerError::WriteI2CError,
            ),
    {
        match outcome {
            Ok(res) => Ok(res),
            Err(_) => Err(MultiplexerError::WriteI2CError),
        }
    }
}

} // verus!
