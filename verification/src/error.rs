//! Errors of the wire codecs.

use vstd::prelude::*;

verus! {

/// Why bytes could not be read as a value.
#[derive(Clone, Copy, Debug, PartialEq, Eq, Structural)]
pub enum DecodeError {
    /// The bytes ended before the value did.
    UnexpectedEof,
    /// A `VarInt` ran past its fifth byte.
    VarIntTooLong,
    /// A length prefix was negative.
    NegativeLength,
    /// A string's bytes were not UTF-8.
    InvalidUtf8,
    /// A handshake intention other than 1, 2 or 3.
    InvalidClientIntent,
    /// No packet of the group has this id in this state.
    UnknownPacket,
}

} // verus!
