use vstd::prelude::*;

use crate::message::bytes::{
    lemma_u16_value_roundtrip, lemma_u32_bytes_roundtrip, lemma_u32_value_roundtrip, push_u16_be,
    push_u32_be, read_u16_be, read_u32_be, u16_be_bytes, u16_from_be, u32_be_bytes, u32_from_be,
};
use crate::message::errors::MessageError;
use core::ops::Range;

verus! {

/// Type identifier of a milestone request message.
pub const MILESTONE_REQUEST_ID: u8 = 0x03;

/// Number of bytes of the requested milestone index.
pub const MILESTONE_REQUEST_INDEX_SIZE: usize = 4;

/// Number of bytes of a milestone request payload.
pub const MILESTONE_REQUEST_CONSTANT_SIZE: usize = MILESTONE_REQUEST_INDEX_SIZE;

/// Number of bytes of a message header: the type, then the payload length as a big-endian `u16`.
pub const HEADER_SIZE: usize = 3;

/// A request for the milestone with a given index.
#[derive(Clone, Copy, Debug)]
pub struct MilestoneRequest {
    pub index: u32,
}

/// What reading `bytes` as a milestone request payload gives.
pub open spec fn spec_from_bytes(bytes: Seq<u8>) -> Result<MilestoneRequest, MessageError> {
    if bytes.len() == MILESTONE_REQUEST_CONSTANT_SIZE {
        Ok(MilestoneRequest { index: u32_from_be(bytes[0], bytes[1], bytes[2], bytes[3]) })
    } else {
        Err(MessageError::InvalidPayloadLength(bytes.len() as usize))
    }
}

/// The payload bytes of `message`.
pub open spec fn spec_into_bytes(message: MilestoneRequest) -> Seq<u8> {
    u32_be_bytes(message.index)
}

/// The header then the payload of `message`.
pub open spec fn spec_into_full_bytes(message: MilestoneRequest) -> Seq<u8> {
    seq![MILESTONE_REQUEST_ID] + u16_be_bytes(MILESTONE_REQUEST_CONSTANT_SIZE as u16)
        + spec_into_bytes(message)
}

/// What reading a header and a payload as a milestone request gives.
pub open spec fn spec_from_full_bytes(header: Seq<u8>, payload: Seq<u8>) -> Result<
    MilestoneRequest,
    MessageError,
> {
    let advertised = u16_from_be(header[1], header[2]) as usize;
    if header[0] != MILESTONE_REQUEST_ID {
        Err(MessageError::InvalidAdvertisedType(header[0], MILESTONE_REQUEST_ID))
    } else if advertised != payload.len() {
        Err(MessageError::InvalidAdvertisedLength(advertised, payload.len() as usize))
    } else {
        spec_from_bytes(payload)
    }
}

impl Default for MilestoneRequest {
    fn default() -> (r: Self)
        ensures
            r.index == 0,
    {
        MilestoneRequest { index: 0 }
    }
}

impl MilestoneRequest {
    /// A request for the milestone `index`.
    pub fn new(index: u32) -> (r: Self)
        ensures
            r.index == index,
    {
        Self { index: index }
    }

    /// The type identifier of this message.
    pub fn id() -> (r: u8)
        ensures
            r == MILESTONE_REQUEST_ID,
    {
        MILESTONE_REQUEST_ID
    }

    /// The lengths that a payload of this message may have: exactly four bytes.
    pub fn size_range() -> (r: Range<usize>)
        ensures
            r.start == MILESTONE_REQUEST_CONSTANT_SIZE,
            r.end == MILESTONE_REQUEST_CONSTANT_SIZE + 1,
    {
        MILESTONE_REQUEST_CONSTANT_SIZE..(MILESTONE_REQUEST_CONSTANT_SIZE + 1)
    }

    /// Reads a payload: the requested index, big-endian. Any other length than four is refused.
    pub fn from_bytes(bytes: &[u8]) -> (r: Result<Self, MessageError>)
        ensures
            r == spec_from_bytes(bytes@),
    {
        let range = Self::size_range();
        if !(range.start <= bytes.len() && bytes.len() < range.end) {
            return Err(MessageError::InvalidPayloadLength(bytes.len()));
        }
        let mut message = Self::default();
        message.index = read_u32_be(bytes);
        Ok(message)
    }

    /// The payload of this message: the requested index, big-endian.
    pub fn into_bytes(self) -> (r: Vec<u8>)
        ensures
            r@ == spec_into_bytes(self),
    {
        let mut bytes: Vec<u8> = Vec::new();
        push_u32_be(&mut bytes, self.index);
        assert(bytes@ =~= spec_into_bytes(self));
        bytes
    }

    /// The header of this message followed by its payload.
    pub fn into_full_bytes(self) -> (r: Vec<u8>)
        ensures
            r@ == spec_into_full_bytes(self),
    {
        let payload = self.into_bytes();
        let mut bytes: Vec<u8> = Vec::new();
        bytes.push(Self::id());
        push_u16_be(&mut bytes, payload.len() as u16);
        push_u32_be(&mut bytes, self.index);
        assert(bytes@ =~= spec_into_full_bytes(self));
        bytes
    }

    /// Reads a message from its header and its payload. The header must name this message type
    /// and announce the payload's length; the payload is then read as by `from_bytes`.
    pub fn from_full_bytes(header: &[u8], payload: &[u8]) -> (r: Result<Self, MessageError>)
        requires
            header@.len() == HEADER_SIZE,
        ensures
            r == spec_from_full_bytes(header@, payload@),
    {
        let advertised = read_u16_be(&header[1..3]) as usize;
        assert(header@.subrange(1, 3)[0] == header@[1] && header@.subrange(1, 3)[1] == header@[2]);
        if header[0] != Self::id() {
            return Err(MessageError::InvalidAdvertisedType(header[0], Self::id()));
        }
        if advertised != payload.len() {
            return Err(MessageError::InvalidAdvertisedLength(advertised, payload.len()));
        }
        Self::from_bytes(payload)
    }
}

/// Reading the payload of a message gives the message back.
pub proof fn lemma_payload_roundtrip(message: MilestoneRequest)
    ensures
        spec_from_bytes(spec_into_bytes(message)) == Ok::<MilestoneRequest, MessageError>(message),
{
    lemma_u32_value_roundtrip(message.index);
}

/// A payload that reads as a message is exactly the payload of that message.
pub proof fn lemma_bytes_roundtrip(bytes: Seq<u8>)
    requires
        spec_from_bytes(bytes) is Ok,
    ensures
        spec_into_bytes(spec_from_bytes(bytes).unwrap()) == bytes,
{
    lemma_u32_bytes_roundtrip(bytes[0], bytes[1], bytes[2], bytes[3]);
    assert(bytes =~= seq![bytes[0], bytes[1], bytes[2], bytes[3]]);
}

/// Reading the header and the payload of a message gives the message back.
pub proof fn lemma_full_roundtrip(message: MilestoneRequest)
    ensures
        ({
            let bytes = spec_into_full_bytes(message);
            spec_from_full_bytes(bytes.take(HEADER_SIZE as int), bytes.skip(HEADER_SIZE as int))
                == Ok::<MilestoneRequest, MessageError>(message)
        }),
{
    let bytes = spec_into_full_bytes(message);
    lemma_u16_value_roundtrip(MILESTONE_REQUEST_CONSTANT_SIZE as u16);
    lemma_payload_roundtrip(message);
    assert(bytes.skip(HEADER_SIZE as int) =~= spec_into_bytes(message));
}

} // verus!
