//! The names that most callers need.

pub use crate::bus::{BusPort, MultiplexerBus};
pub use crate::control::ControlWrite;
pub use crate::error::MultiplexerError;
pub use crate::multiplexer::{Multiplexer, PortState};
pub use crate::relay::{Action, OperationKind, Phase, Progress, Relay};
