//! The STUN wire format: the 20-byte header and the framing of the
//! type-length-value attributes that follow it.

use vstd::prelude::*;
use vstd::slice::slice_subrange;
use vstd::slice::slice_to_vec;

verus! {

/// Number of bytes in the fixed message header.
pub const HEADER_SIZE: usize = 20;

/// Number of bytes in the type and length prefix of an attribute.
pub const ATTRIBUTE_HEADER_SIZE: usize = 4;

/// Number of bytes in a transaction identifier.
pub const TRANSACTION_ID_SIZE: usize = 12;

/// The method number of a Binding transaction.
pub const BINDING: u16 = 0x0001;

/// The type number of the XOR-MAPPED-ADDRESS attribute.
pub const XOR_MAPPED_ADDRESS: u16 = 0x0020;

/// The class of a message, carried in two bits of the message type.
#[derive(Clone, Copy, Debug, PartialEq, Eq, Structural)]
pub enum MessageClass {
    Request,
    Indication,
    SuccessResponse,
    ErrorResponse,
}

/// Why a buffer is not a STUN message.
#[derive(Clone, Copy, Debug, PartialEq, Eq, Structural)]
pub enum DecodeError {
    /// The buffer is shorter than the header, or shorter than the header
    /// plus the length that the header declares.
    Truncated,
    /// Bytes 4 to 7 are not the magic cookie.
    BadMagicCookie,
    /// An attribute's declared length, padding included, exceeds what is
    /// left of the message.
    AttributeOverrun,
    /// The message is framed correctly but its content was rejected.
    Malformed,
}

/// The fields of a message header.
#[derive(Clone, Debug, PartialEq, Eq)]
pub struct Header {
    pub method: u16,
    pub class: MessageClass,
    pub length: u16,
    pub transaction_id: Vec<u8>,
}

/// The mathematical value of a header.
pub struct HeaderView {
    pub method: u16,
    pub class: MessageClass,
    pub length: u16,
    pub transaction_id: Seq<u8>,
}

impl View for Header {
    type V = HeaderView;

    open spec fn view(&self) -> HeaderView {
        HeaderView {
            method: self.method,
            class: self.class,
            length: self.length,
            transaction_id: self.transaction_id@,
        }
    }
}

/// The unsigned number that two bytes spell in network order.
pub open spec fn be16(hi: u8, lo: u8) -> int {
    hi as int * 256 + lo as int
}

/// The 16 bits at the start of the header.
pub open spec fn leading_bits(bytes: Seq<u8>) -> u16
    recommends
        bytes.len() >= 2,
{
    be16(bytes[0], bytes[1]) as u16
}

/// The number of attribute bytes that the header announces.
pub open spec fn declared_length(bytes: Seq<u8>) -> int
    recommends
        bytes.len() >= 4,
{
    be16(bytes[2], bytes[3])
}

/// Whether bytes 4 to 7 are 0x21 0x12 0xA4 0x42.
pub open spec fn has_magic_cookie(bytes: Seq<u8>) -> bool
    recommends
        bytes.len() >= 8,
{
    bytes[4] == 0x21 && bytes[5] == 0x12 && bytes[6] == 0xA4 && bytes[7] == 0x42
}

/// The twelve method bits of a message type, gathered around the two class
/// bits that interrupt them.
pub open spec fn method_of(message_type: u16) -> u16 {
    ((message_type & 0x3E00) >> 2) | ((message_type & 0x00E0) >> 1) | (message_type & 0x000F)
}

/// The two class bits of a message type, as a number from 0 to 3.
pub open spec fn class_bits(message_type: u16) -> u16 {
    ((message_type & 0x0100) >> 7) | ((message_type & 0x0010) >> 4)
}

/// The class that a message type names.
pub open spec fn class_of(message_type: u16) -> MessageClass {
    let bits = class_bits(message_type);
    if bits == 0 {
        MessageClass::Request
    } else if bits == 1 {
        MessageClass::Indication
    } else if bits == 2 {
        MessageClass::SuccessResponse
    } else {
        MessageClass::ErrorResponse
    }
}

/// The header that the first twenty bytes spell, or the reason why they
/// spell none. The checks are made in this order: the header is there, its
/// two leading bits are zero, the magic cookie is in place.
pub open spec fn header_of(bytes: Seq<u8>) -> Result<HeaderView, DecodeError> {
    if bytes.len() < HEADER_SIZE {
        Err(DecodeError::Truncated)
    } else if leading_bits(bytes) >= 0x4000 {
        Err(DecodeError::Malformed)
    } else if !has_magic_cookie(bytes) {
        Err(DecodeError::BadMagicCookie)
    } else {
        Ok(
            HeaderView {
                method: method_of(leading_bits(bytes)),
                class: class_of(leading_bits(bytes)),
                length: declared_length(bytes) as u16,
                transaction_id: bytes.subrange(8, 20),
            },
        )
    }
}

/// Reads two bytes in network order.
fn read_be16(bytes: &[u8], at: usize) -> (r: u16)
    requires
        at + 1 < bytes.len(),
    ensures
        r == be16(bytes[at as int], bytes[at + 1]),
{
    let hi: u16 = bytes[at] as u16;
    let lo: u16 = bytes[at + 1] as u16;
    hi * 256 + lo
}

/// Splits a message type into its class.
pub fn message_class(message_type: u16) -> (r: MessageClass)
    ensures
        r == class_of(message_type),
{
    let bits: u16 = ((message_type & 0x0100) >> 7) | ((message_type & 0x0010) >> 4);
    if bits == 0 {
        MessageClass::Request
    } else if bits == 1 {
        MessageClass::Indication
    } else if bits == 2 {
        MessageClass::SuccessResponse
    } else {
        MessageClass::ErrorResponse
    }
}

/// Splits a message type into its method.
pub fn message_method(message_type: u16) -> (r: u16)
    ensures
        r == method_of(message_type),
{
    ((message_type & 0x3E00) >> 2) | ((message_type & 0x00E0) >> 1) | (message_type & 0x000F)
}

/// Parses the header at the start of `bytes`.
pub fn parse_header(bytes: &[u8]) -> (r: Result<Header, DecodeError>)
    ensures
        match r {
            Ok(h) => header_of(bytes@) == Ok::<HeaderView, DecodeError>(h@),
            Err(e) => header_of(bytes@) == Err::<HeaderView, DecodeError>(e),
        },
{
    if bytes.len() < HEADER_SIZE {
        return Err(DecodeError::Truncated);
    }
    let message_type: u16 = read_be16(bytes, 0);
    if message_type >= 0x4000 {
        return Err(DecodeError::Malformed);
    }
    if bytes[4] != 0x21 || bytes[5] != 0x12 || bytes[6] != 0xA4 || bytes[7] != 0x42 {
        return Err(DecodeError::BadMagicCookie);
    }
    let length: u16 = read_be16(bytes, 2);
    let transaction_id = slice_to_vec(slice_subrange(bytes, 8, 20));
    Ok(
        Header {
            method: message_method(message_type),
            class: message_class(message_type),
            length,
            transaction_id,
        },
    )
}

/// The bytes that an attribute with a value of `value_len` bytes takes up:
/// its prefix, its value, and the padding that brings it to a multiple of
/// four.
pub open spec fn attribute_span(value_len: int) -> int {
    ATTRIBUTE_HEADER_SIZE + value_len + (4 - value_len % 4) % 4
}

/// Whether `area` is a run of whole attributes: each prefix is complete and
/// each declared length, padding included, stays within the area.
pub open spec fn attributes_framed(area: Seq<u8>) -> bool
    decreases area.len(),
{
    if area.len() == 0 {
        true
    } else if area.len() < ATTRIBUTE_HEADER_SIZE {
        false
    } else {
        let span = attribute_span(be16(area[2], area[3]));
        span <= area.len() && attributes_framed(area.skip(span))
    }
}

/// The header of a message whose framing is sound, or the first reason why
/// it is not: the header itself, then the declared length against the
/// buffer, then the attributes against the declared length.
pub open spec fn frame_of(bytes: Seq<u8>) -> Result<HeaderView, DecodeError> {
    match header_of(bytes) {
        Err(e) => Err(e),
        Ok(h) => if bytes.len() < HEADER_SIZE + h.length {
            Err(DecodeError::Truncated)
        } else if !attributes_framed(bytes.subrange(HEADER_SIZE as int, HEADER_SIZE + h.length)) {
            Err(DecodeError::AttributeOverrun)
        } else {
            Ok(h)
        },
    }
}

/// The number of bytes that a soundly framed message occupies.
pub open spec fn frame_size(bytes: Seq<u8>) -> int
    recommends
        frame_of(bytes) is Ok,
{
    HEADER_SIZE + declared_length(bytes)
}

/// Walks the attributes in `area` and tells whether each of them fits.
pub fn check_attributes(area: &[u8]) -> (r: bool)
    ensures
        r == attributes_framed(area@),
{
    let mut pos: usize = 0;
    assert(area@.skip(0) =~= area@);
    while pos < area.len()
        invariant
            pos <= area.len(),
            attributes_framed(area@) == attributes_framed(area@.skip(pos as int)),
        decreases area.len() - pos,
    {
        let left: usize = area.len() - pos;
        if left < ATTRIBUTE_HEADER_SIZE {
            return false;
        }
        let value_len: usize = read_be16(area, pos + 2) as usize;
        let span: usize = ATTRIBUTE_HEADER_SIZE + value_len + (4 - value_len % 4) % 4;
        proof {
            let rest = area@.skip(pos as int);
            assert(rest[2] == area@[pos + 2] && rest[3] == area@[pos + 3]);
            assert(span == attribute_span(be16(rest[2], rest[3])));
        }
        if span > left {
            return false;
        }
        assert(area@.skip(pos as int).skip(span as int) =~= area@.skip(pos + span));
        pos = pos + span;
    }
    true
}

/// Checks the framing of the message at the start of `bytes`.
pub fn check_frame(bytes: &[u8]) -> (r: Result<Header, DecodeError>)
    ensures
        match r {
            Ok(h) => frame_of(bytes@) == Ok::<HeaderView, DecodeError>(h@),
            Err(e) => frame_of(bytes@) == Err::<HeaderView, DecodeError>(e),
        },
{
    match parse_header(bytes) {
        Err(e) => Err(e),
        Ok(header) => {
            let length: usize = header.length as usize;
            if bytes.len() - HEADER_SIZE < length {
                Err(DecodeError::Truncated)
            } else if !check_attributes(slice_subrange(bytes, HEADER_SIZE, HEADER_SIZE + length)) {
                Err(DecodeError::AttributeOverrun)
            } else {
                Ok(header)
            }
        },
    }
}

} // verus!
