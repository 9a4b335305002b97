//! The one-byte write that puts a control byte into the chip.

use vstd::prelude::*;

verus! {

/// A write of the single byte `code` to the multiplexer at `address`.
#[derive(Copy, Clone, Debug, PartialEq, Eq)]
pub struct ControlWrite {
    /// Address of the multiplexer chip itself.
    pub address: u8,
    /// The control byte to write.
    pub code: u8,
}

} // verus!
