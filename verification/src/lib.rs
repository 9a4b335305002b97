//! Driver core for a four-channel I2C bus multiplexer.
//!
//! The crate never touches the bus itself. It computes the chip's address,
//! the control bytes, and the order of the transfers that select a port and
//! relay a transaction through it; the caller performs each transfer on its
//! own transport and reports back how it went.

pub mod address;
pub mod bits;
pub mod bus;
pub mod control;
pub mod error;
pub mod multiplexer;
pub mod ports;
pub mod prelude;
pub mod relay;

pub use crate::address::address_from_pins;
pub use crate::multiplexer::{Multiplexer, PortState};
