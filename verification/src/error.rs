//! What can go wrong, and where: at the multiplexer or behind it.

use vstd::prelude::*;
use embedded_hal::i2c::{ErrorKind, NoAcknowledgeSource};

verus! {

/// `embedded_hal::i2c::ErrorKind`, the classes by which a transport names
/// its failures. Its variants are read from the transport crate, so that
/// `ErrorKind::Other` can be named; nothing more is claimed of it.
#[verifier::external_type_specification]
pub struct ExErrorKind(ErrorKind);

/// `embedded_hal::i2c::NoAcknowledgeSource`, which `ErrorKind` carries in
/// its `NoAcknowledge` variant. It is only carried through.
#[verifier::external_type_specification]
#[verifier::external_body]
pub struct ExNoAcknowledgeSource(NoAcknowledgeSource);

/// A failure of the multiplexer driver. `E` is the transport's own error.
#[derive(Copy, Clone, Debug, PartialEq, Eq)]
pub enum MultiplexerError<E> {
    /// A write-then-read on the bus failed.
    WriteReadI2CError,
    /// A write on the bus failed.
    WriteI2CError,
    /// A read on the bus failed.
    ReadI2CError,
    /// The port does not exist, or the chip could not be told to select it.
    PortError,
    /// The device behind the multiplexer failed; the transport's error is
    /// kept as it came.
    I2CError(E),
}

impl<E> MultiplexerError<E> {
    /// The text that describes this failure.
    pub open spec fn spec_message(&self) -> Seq<char> {
        match *self {
            MultiplexerError::WriteReadI2CError => "Write Read I2C Error"@,
            MultiplexerError::WriteI2CError => "Write I2C Error"@,
            MultiplexerError::ReadI2CError => "Read I2C Error"@,
            MultiplexerError::PortError => "Incorrect port supplied"@,
            MultiplexerError::I2CError(_) => "I2C Error"@,
        }
    }

    /// A short description of this failure, for display.
    pub fn message(&self) -> (text: &'static str)
        ensures
            text@ == self.spec_message(),
    {
        match self {
            MultiplexerError::WriteReadI2CError => "Write Read I2C Error",
            MultiplexerError::WriteI2CError => "Write I2C Error",
            MultiplexerError::ReadI2CError => "Read I2C Error",
            MultiplexerError::PortError => "Incorrect port supplied",
            MultiplexerError::I2CError(_) => "I2C Error",
        }
    }

    /// The class of this failure as the transport layer names it: that of
    /// the transport's own error, as `classify` gives it, where the device
    /// behind the multiplexer failed, and `Other` for every failure that
    /// arose at the multiplexer itself.
    pub fn kind<F: FnOnce(&E) -> ErrorKind>(&self, classify: F) -> (kind: ErrorKind)
        requires
            self matches MultiplexerError::I2CError(e) ==> call_requires(classify, (&e,)),
        ensures
            match *self {
                MultiplexerError::I2CError(e) => call_ensures(classify, (&e,), kind),
                _ => kind == ErrorKind::Other,
            },
    {
        match self {
            MultiplexerError::I2CError(e) => classify(e),
            _ => ErrorKind::Other,
        }
    }

    /// The transport error behind this failure: present exactly for a
    /// failure of the device behind the multiplexer.
    pub fn transport_error(&self) -> (underlying: Option<&E>)
        ensures
            match underlying {
                Some(e) => *self == MultiplexerError::I2CError(*e),
                None => !(self is I2CError),
            },
    {
        match self {
            MultiplexerError::I2CError(e) => Some(e),
            _ => None,
        }
    }
}

} // verus!
