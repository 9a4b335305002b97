//! One relayed operation, step by step: select the port, then forward.
//!
//! A [`Relay`] says which transfer the transport owes next and takes the
//! outcome of that transfer to decide how to go on. It is begun afresh for
//! every operation, so nothing is remembered of an earlier selection.

use vstd::prelude::*;
use crate::control::ControlWrite;
use crate::error::MultiplexerError;

verus! {

/// The kind of operation that a caller relays to a device behind a port.
#[derive(Copy, Clone, Debug, PartialEq, Eq)]
pub enum OperationKind {
    Read,
    Write,
    WriteRead,
    Transaction,
}

/// Where a relayed operation stands.
#[derive(Copy, Clone, Debug, PartialEq, Eq)]
pub enum Phase {
    /// The select write has not been answered yet.
    Selecting,
    /// The port is selected; the operation itself has not been answered yet.
    Relaying,
}

/// A transfer that the transport is asked to perform.
#[derive(Copy, Clone, Debug, PartialEq, Eq)]
pub enum Action {
    /// Write the select code to the multiplexer.
    Select(ControlWrite),
    /// Forward the caller's operation, unchanged, to the device at `address`.
    Forward { address: u8, kind: OperationKind },
}

/// A relayed operation in flight.
#[derive(Copy, Clone, Debug, PartialEq, Eq)]
pub struct Relay {
    /// The write that selects the port.
    pub select: ControlWrite,
    /// Address of the device that the operation is meant for.
    pub target: u8,
    /// The operation being relayed.
    pub kind: OperationKind,
    /// The step that is awaiting its outcome.
    pub phase: Phase,
}

/// How a relayed operation stands after the outcome of a transfer.
#[derive(Debug, PartialEq, Eq)]
pub enum Progress<E> {
    /// Another transfer is owed.
    Next(Relay),
    /// Both steps went through.
    Complete,
    /// The multiplexer did not take the select write; nothing was forwarded.
    SelectionFailed,
    /// The forwarded operation of this kind failed with this transport error.
    RelayFailed(OperationKind, E),
}

impl Relay {
    /// The transfer that is owed in the current phase.
    pub open spec fn spec_action(self) -> Action {
        match self.phase {
            Phase::Selecting => Action::Select(self.select),
            Phase::Relaying => Action::Forward { address: self.target, kind: self.kind },
        }
    }

    /// The transition of the relay on the outcome of the transfer it asked
    /// for.
    pub open spec fn spec_resume<E>(self, outcome: Result<(), E>) -> Progress<E> {
        match (self.phase, outcome) {
            (Phase::Selecting, Ok(_)) => Progress::Next(
                Relay {
                    select: self.select,
                    target: self.target,
                    kind: self.kind,
                    phase: Phase::Relaying,
                },
            ),
            (Phase::Selecting, Err(_)) => Progress::SelectionFailed,
            (Phase::Relaying, Ok(_)) => Progress::Complete,
            (Phase::Relaying, Err(e)) => Progress::RelayFailed(self.kind, e),
        }
    }

    /// The transfer that the transport must perform next.
    pub fn action(&self) -> (action: Action)
        ensures
            action == self.spec_action(),
    {
        match self.phase {
            Phase::Selecting => Action::Select(self.select),
            Phase::Relaying => Action::Forward { address: self.target, kind: self.kind },
        }
    }

    /// Takes the outcome of the transfer that [`Relay::action`] asked for.
    ///
    /// A select write that went through leads on to the forwarding step; one
    /// that failed ends the operation there. The outcome of the forwarded
    /// operation ends it either way.
    pub fn resume<E>(self, outcome: Result<(), E>) -> (progress: Progress<E>)
        ensures
            progress == self.spec_resume(outcome),
    {
        match self.phase {
            Phase::Selecting => match outcome {
                Ok(_) => Progress::Next(
                    Relay {
                        select: self.select,
                        target: self.target,
                        kind: self.kind,
                        phase: Phase::Relaying,
                    },
                ),
                Err(_) => Progress::SelectionFailed,
            },
            Phase::Relaying => match outcome {
                Ok(_) => Progress::Complete,
                Err(e) => Progress::RelayFailed(self.kind, e),
            },
        }
    }
}

impl<E> Progress<E> {
    /// What the caller of the relayed operation is told, once it has ended.
    pub open spec fn spec_result(self) -> Option<Result<(), MultiplexerError<E>>> {
        match self {
            Progress::Next(_) => None,
            Progress::Complete => Some(Ok(())),
            Progress::SelectionFailed => Some(Err(MultiplexerError::PortError)),
            Progress::RelayFailed(_, e) => Some(Err(MultiplexerError::I2CError(e))),
        }
    }

    /// The result of the relayed operation, or `None` while a transfer is
    /// still owed. A failed selection is a port error; a failure of the
    /// forwarded operation carries the transport's error.
    pub fn result(self) -> (result: Option<Result<(), MultiplexerError<E>>>)
        ensures
            result == self.spec_result(),
    {
        match self {
            Progress::Next(_) => None,
            Progress::Complete => Some(Ok(())),
            Progress::SelectionFailed => Some(Err(MultiplexerError::PortError)),
            Progress::RelayFailed(_, e) => Some(Err(MultiplexerError::I2CError(e))),
        }
    }
}

/// The transfers that `relay` has performed once the transport has answered
/// with `outcomes`, one outcome per transfer and in this order, and how the
/// relay stands then. Outcomes beyond the end of the operation answer
/// nothing.
pub open spec fn run<E>(relay: Relay, outcomes: Seq<Result<(), E>>) -> (Seq<Action>, Progress<E>)
    decreases outcomes.len(),
{
    if outcomes.len() == 0 {
        (Seq::empty(), Progress::Next(relay))
    } else {
        match relay.spec_resume(outcomes[0]) {
            Progress::Next(next) => {
                let (rest, end) = run(next, outcomes.skip(1));
                (seq![relay.spec_action()] + rest, end)
            },
            end => (seq![relay.spec_action()], end),
        }
    }
}

} // verus!
