//! The per-port relay interface: a view of the bus through one fixed port.

use vstd::prelude::*;
use crate::address::{address_from_pins, spec_address_from_pins, DEFAULT_ADDRESS};
use crate::control::ControlWrite;
use crate::error::MultiplexerError;
use crate::ports::{spec_select_code, PORT_COUNT};
use crate::relay::{run, Action, OperationKind, Phase, Progress, Relay};

verus! {

/// The multiplexer as a source of port views. It holds the chip's address.
#[derive(Copy, Clone, Debug)]
pub struct MultiplexerBus {
    address: u8,
}

/// What a [`BusPort`] stands for: the chip's address and the port that the
/// view looks through.
pub struct PortView {
    pub address: u8,
    pub port: u8,
}

/// A view of the bus through one port of the multiplexer. The port is one
/// that the chip has.
#[derive(Copy, Clone, Debug)]
pub struct BusPort {
    address: u8,
    port: u8,
}

impl View for BusPort {
    type V = PortView;

    closed spec fn view(&self) -> PortView {
        PortView { address: self.address, port: self.port }
    }
}

impl MultiplexerBus {
    /// The address of the chip.
    pub closed spec fn spec_address(&self) -> u8 {
        self.address
    }

    /// A multiplexer at the default address.
    pub fn new() -> (bus: Self)
        ensures
            bus.spec_address() == DEFAULT_ADDRESS,
    {
        Self { address: 0x70 }
    }

    /// Sets the address according to the hardware address pins.
    pub fn with_address_pins(self, a0: bool, a1: bool, a2: bool) -> (bus: Self)
        ensures
            bus.spec_address() == spec_address_from_pins(a0, a1, a2),
    {
        let mut bus = self;
        bus.address = address_from_pins(a0, a1, a2);
        bus
    }

    /// Sets the address, whatever it was before.
    pub fn with_address(self, address: u8) -> (bus: Self)
        ensures
            bus.spec_address() == address,
    {
        let mut bus = self;
        bus.address = address;
        bus
    }

    /// The address of the chip.
    #[verifier::when_used_as_spec(spec_address)]
    pub fn address(&self) -> (address: u8)
        ensures
            address == self.spec_address(),
    {
        self.address
    }

    /// A view through `port` of the chip at this address. A port that the
    /// chip does not have is refused.
    pub fn new_port<E>(&self, port: u8) -> (view: Result<BusPort, MultiplexerError<E>>)
        ensures
            port < PORT_COUNT ==> (view matches Ok(p) && p@ == PortView {
                address: self.spec_address(),
                port,
            }),
            port >= PORT_COUNT ==> view == Err::<BusPort, MultiplexerError<E>>(
                MultiplexerError::PortError,
            ),
    {
        if port >= 4 {
            return Err(MultiplexerError::PortError);
        }
        Ok(BusPort { address: self.address, port })
    }
}

impl BusPort {
    #[verifier::type_invariant]
    spec fn port_exists(self) -> bool {
        self.port < PORT_COUNT
    }

    /// The write that selects this view's port: the port's select code,
    /// written to the chip.
    pub open spec fn spec_select(&self) -> ControlWrite {
        ControlWrite { address: self@.address, code: spec_select_code(self@.port) }
    }

    /// The relay of an operation of `kind` to the device at `target`, with
    /// nothing done yet: the select write is owed first.
    pub open spec fn spec_relay(&self, kind: OperationKind, target: u8) -> Relay {
        Relay { select: self.spec_select(), target, kind, phase: Phase::Selecting }
    }

    /// The address of the chip.
    pub fn address(&self) -> (address: u8)
        ensures
            address == self@.address,
    {
        self.address
    }

    /// The port that this view looks through.
    pub fn port(&self) -> (port: u8)
        ensures
            port == self@.port,
            port < PORT_COUNT,
    {
        proof {
            use_type_invariant(self);
        }
        self.port
    }

    /// The write that selects this view's port.
    pub fn open_port(&self) -> (select: ControlWrite)
        ensures
            select == self.spec_select(),
    {
        proof {
            use_type_invariant(self);
            assert(1u8 << 0u8 == 1u8 && 1u8 << 1u8 == 2u8 && 1u8 << 2u8 == 4u8 && 1u8 << 3u8
                == 8u8) by (bit_vector);
        }
        let id: u8 = match self.port {
            0 => 0b000_0001,
            1 => 0b000_0010,
            2 => 0b000_0100,
            _ => 0b000_1000,
        };
        ControlWrite { address: self.address, code: id }
    }

    /// Begins the relay of an operation of `kind` to the device at `target`.
    /// Every operation begins with the select write, whatever went before.
    pub fn relay(&self, kind: OperationKind, target: u8) -> (relay: Relay)
        ensures
            relay == self.spec_relay(kind, target),
    {
        Relay { select: self.open_port(), target, kind, phase: Phase::Selecting }
    }
}

/// Every relayed operation performs the select write of its port first and
/// then, only if that write went through, forwards the operation to the
/// target: once, and nothing after it.
pub proof fn lemma_relay_order<E>(
    port: BusPort,
    kind: OperationKind,
    target: u8,
    outcomes: Seq<Result<(), E>>,
)
    ensures
        run(port.spec_relay(kind, target), outcomes).0 == if outcomes.len() == 0 {
            Seq::<Action>::empty()
        } else if outcomes.len() == 1 || outcomes[0].is_err() {
            seq![Action::Select(port.spec_select())]
        } else {
            seq![Action::Select(port.spec_select()), Action::Forward { address: target, kind }]
        },
{
    let begun = port.spec_relay(kind, target);
    if outcomes.len() > 0 {
        reveal_with_fuel(run, 3);
        let rest = outcomes.skip(1);
        if outcomes[0].is_ok() && rest.len() > 0 {
            assert(rest[0] == outcomes[1]);
        }
        assert(run(begun, outcomes).0 =~= if outcomes.len() == 1 || outcomes[0].is_err() {
            seq![Action::Select(port.spec_select())]
        } else {
            seq![Action::Select(port.spec_select()), Action::Forward { address: target, kind }]
        });
    }
}

/// How a relayed operation ends: complete when both transfers went through,
/// as a failed selection when the select write failed, and with the
/// transport's error, tagged with the kind of operation, when the forwarded
/// operation failed. Until then a transfer is owed.
pub proof fn lemma_relay_end<E>(
    port: BusPort,
    kind: OperationKind,
    target: u8,
    outcomes: Seq<Result<(), E>>,
)
    ensures
        run(port.spec_relay(kind, target), outcomes).1 == if outcomes.len() == 0 {
            Progress::<E>::Next(port.spec_relay(kind, target))
        } else if outcomes[0].is_err() {
            Progress::SelectionFailed
        } else if outcomes.len() == 1 {
            Progress::Next(
                Relay { select: port.spec_select(), target, kind, phase: Phase::Relaying },
            )
        } else {
            match outcomes[1] {
                Ok(_) => Progress::Complete,
                Err(e) => Progress::RelayFailed(kind, e),
            }
        },
{
    if outcomes.len() > 0 {
        reveal_with_fuel(run, 3);
        let rest = outcomes.skip(1);
        if outcomes[0].is_ok() && rest.len() > 0 {
            assert(rest[0] == outcomes[1]);
        }
    }
}

/// A select write that fails is the only transfer of its operation: nothing
/// is forwarded, and the operation ends as a port error, which no failure
/// of a forwarded operation is reported as.
pub proof fn lemma_selection_failure_forwards_nothing<E>(
    port: BusPort,
    kind: OperationKind,
    target: u8,
    outcomes: Seq<Result<(), E>>,
)
    requires
        outcomes.len() > 0,
        outcomes[0].is_err(),
    ensures
        run(port.spec_relay(kind, target), outcomes).0 == seq![Action::Select(port.spec_select())],
        run(port.spec_relay(kind, target), outcomes).1 == Progress::<E>::SelectionFailed,
        run(port.spec_relay(kind, target), outcomes).1.spec_result() == Some(
            Err::<(), MultiplexerError<E>>(MultiplexerError::PortError),
        ),
        forall|k: OperationKind, e: E|
            #[trigger] Progress::RelayFailed(k, e).spec_result() != Some(
                Err::<(), MultiplexerError<E>>(MultiplexerError::PortError),
            ),
{
    lemma_relay_order(port, kind, target, outcomes);
    lemma_relay_end(port, kind, target, outcomes);
}

/// An operation relayed through a port view to the device at `target`.
pub struct Relayed {
    pub port: BusPort,
    pub kind: OperationKind,
    pub target: u8,
}

/// The transfers on the bus when the operations `relayed` are performed one
/// after another, each through its own view, and every transfer goes
/// through.
pub open spec fn transfers(relayed: Seq<Relayed>) -> Seq<Action>
    decreases relayed.len(),
{
    if relayed.len() == 0 {
        Seq::empty()
    } else {
        let last = relayed.last();
        transfers(relayed.drop_last()) + run(
            last.port.spec_relay(last.kind, last.target),
            seq![Ok::<(), ()>(()), Ok::<(), ()>(())],
        ).0
    }
}

/// However operations through different views follow one another, each
/// forwarded operation comes directly after the select write of its own
/// view: the bus carries, for the operations in order, the select write and
/// then the operation, and nothing else.
pub proof fn lemma_interleaved_relays(relayed: Seq<Relayed>)
    ensures
        transfers(relayed).len() == 2 * relayed.len(),
        forall|i: int|
            0 <= i < relayed.len() ==> {
                &&& transfers(relayed)[2 * i] == Action::Select(
                    (#[trigger] relayed[i]).port.spec_select(),
                )
                &&& transfers(relayed)[2 * i + 1] == Action::Forward {
                    address: relayed[i].target,
                    kind: relayed[i].kind,
                }
            },
    decreases relayed.len(),
{
    if relayed.len() > 0 {
        let last = relayed.last();
        let before = relayed.drop_last();
        lemma_interleaved_relays(before);
        lemma_relay_order(
            last.port,
            last.kind,
            last.target,
            seq![Ok::<(), ()>(()), Ok::<(), ()>(())],
        );
        assert forall|i: int| 0 <= i < relayed.len() implies {
            &&& transfers(relayed)[2 * i] == Action::Select(
                (#[trigger] relayed[i]).port.spec_select(),
            )
            &&& transfers(relayed)[2 * i + 1] == Action::Forward {
                address: relayed[i].target,
                kind: relayed[i].kind,
            }
        } by {
            if i < before.len() {
                assert(relayed[i] == before[i]);
            }
        }
    }
}

} // verus!
