//! What can go wrong in the transport.

use vstd::prelude::*;

verus! {

/// Why bytes could not be turned into a value, or a value into bytes.
#[derive(Clone, Copy, Debug, PartialEq, Eq, Structural)]
pub enum WireError {
    /// The bytes end before the value does.
    UnexpectedEnd,
    /// A tag names no variant of the type that is read.
    InvalidVariant,
    /// The bytes of a text are not UTF-8.
    InvalidUtf8,
    /// A length does not fit the 32 bits that the format gives it.
    TooLong,
    /// A number does not fit the machine's word.
    OutOfRange,
}

/// The kinds of stream failure that the transport tells apart.
#[derive(Clone, Copy, Debug, PartialEq, Eq, Structural)]
pub enum IoErrorKind {
    /// A frame announces more bytes than a frame may have.
    InvalidData,
    /// The stream ended inside a frame.
    UnexpectedEof,
    /// Any other failure of the stream.
    Other,
}

/// The transport's error.
#[derive(Clone, Copy, Debug, PartialEq, Eq, Structural)]
pub enum Error {
    /// The queue that a value was meant for has no receiver left.
    ChannelClosed,
    /// No client is registered under this connection id.
    UnknownClient(u64),
    /// A packet could not be encoded or decoded.
    Wire(WireError),
    /// The stream failed.
    Io(IoErrorKind),
}

pub type Result<T> = core::result::Result<T, Error>;

impl Error {
    /// Whether the connection that met this error has to be torn down: true
    /// of stream failures and of malformed packets.
    pub open spec fn is_transport_fatal(self) -> bool {
        self is Wire || self is Io
    }
}

} // verus!
