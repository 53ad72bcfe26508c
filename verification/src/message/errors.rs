use vstd::prelude::*;

verus! {

/// Why bytes could not be read as a protocol message.
#[derive(Clone, Copy, Debug, PartialEq, Eq, Structural)]
pub enum MessageError {
    /// The header names another message type: (advertised, expected).
    InvalidAdvertisedType(u8, u8),
    /// The header announces another payload length: (advertised, actual).
    InvalidAdvertisedLength(usize, usize),
    /// The payload has a length outside the message's size range.
    InvalidPayloadLength(usize),
    /// A payload field could not be read.
    InvalidPayloadField,
}

} // verus!
