//! The STUN codec: the Binding request that is sent, the response that is
//! decoded, and the reflexive transport address that it carries.
//!
//! Messages are written and their attributes are read by the `stun_rs`
//! crate. The framing of a received buffer is checked here, byte by byte,
//! before the crate's reading of it is accepted.

use crate::wire::check_frame;
use crate::wire::declared_length;
use crate::wire::frame_of;
use crate::wire::frame_size;
use crate::wire::header_of;
use crate::wire::DecodeError;
use crate::wire::Header;
use crate::wire::HeaderView;
use crate::wire::MessageClass;
use crate::wire::BINDING;
use crate::wire::HEADER_SIZE;
use vstd::prelude::*;

verus! {

/// Size of the scratch buffer that a request is encoded into.
pub const REQUEST_BUFFER_SIZE: usize = 512;

/// A transport address as a STUN server saw it: the public side of the NAT
/// binding. The address is kept in its textual form.
#[derive(Clone, Debug, PartialEq, Eq)]
pub struct MappedAddress {
    pub ip: String,
    pub port: u16,
}

/// The mathematical value of a [`MappedAddress`].
pub struct MappedAddressView {
    pub ip: Seq<char>,
    pub port: u16,
}

impl View for MappedAddress {
    type V = MappedAddressView;

    open spec fn view(&self) -> MappedAddressView {
        MappedAddressView { ip: self.ip@, port: self.port }
    }
}

/// The value of an address that may be absent.
pub open spec fn address_view(address: Option<MappedAddress>) -> Option<MappedAddressView> {
    match address {
        Some(a) => Some(a@),
        None => None,
    }
}

/// What the attribute decoder found in a buffer that it accepted.
#[derive(Clone, Debug, PartialEq, Eq)]
pub struct Reading {
    /// The first XOR-MAPPED-ADDRESS attribute, with the mask undone.
    pub mapped_address: Option<MappedAddress>,
    /// The number of bytes that the message occupies.
    pub consumed: usize,
}

/// The mathematical value of a [`Reading`].
pub struct ReadingView {
    pub mapped_address: Option<MappedAddressView>,
    pub consumed: usize,
}

impl View for Reading {
    type V = ReadingView;

    open spec fn view(&self) -> ReadingView {
        ReadingView { mapped_address: address_view(self.mapped_address), consumed: self.consumed }
    }
}

/// The value of a reading that may be absent.
pub open spec fn reading_view(reading: Option<Reading>) -> Option<ReadingView> {
    match reading {
        Some(r) => Some(r@),
        None => None,
    }
}

/// A decoded STUN message.
#[derive(Clone, Debug, PartialEq, Eq)]
pub struct StunMessage {
    pub method: u16,
    pub class: MessageClass,
    pub transaction_id: Vec<u8>,
    pub mapped_address: Option<MappedAddress>,
}

/// The mathematical value of a [`StunMessage`].
pub struct StunMessageView {
    pub method: u16,
    pub class: MessageClass,
    pub transaction_id: Seq<u8>,
    pub mapped_address: Option<MappedAddressView>,
}

impl View for StunMessage {
    type V = StunMessageView;

    open spec fn view(&self) -> StunMessageView {
        StunMessageView {
            method: self.method,
            class: self.class,
            transaction_id: self.transaction_id@,
            mapped_address: address_view(self.mapped_address),
        }
    }
}

/// The message carries no XOR-MAPPED-ADDRESS attribute.
#[derive(Clone, Copy, Debug, PartialEq, Eq, Structural)]
pub struct AttributeMissing;

/// The error of `stun_rs::MessageDecoder::decode`, carried through unread.
#[verifier::external_type_specification]
#[verifier::external_body]
pub struct ExStunDecodeError(stun_rs::error::StunDecodeError);

/// The error of `stun_rs::MessageEncoder::encode`, carried through unread.
#[verifier::external_type_specification]
#[verifier::external_body]
pub struct ExStunEncodeError(stun_rs::error::StunEncodeError);

/// What `stun_rs` reads in `bytes` with a decoder that has no context:
/// `None` where it rejects the buffer.
pub uninterp spec fn stun_reading(bytes: Seq<u8>) -> Option<ReadingView>;

/// Calls `stun_rs::MessageDecoder::decode` on `bytes`, with the decoder that
/// `MessageDecoderBuilder::default()` builds, and keeps of the message the
/// address of the first XOR-MAPPED-ADDRESS attribute that
/// `StunMessage::get` finds, in the textual form of `std`, together with the
/// size that the decoder reports. The decoder drops attributes that follow
/// a MESSAGE-INTEGRITY attribute, so an address behind one is not found.
///
/// Trusted: the outcome is a function of the bytes alone, named
/// [`stun_reading`]. Nothing else is claimed of it.
#[verifier::external_body]
fn stun_read(bytes: &[u8]) -> (r: Result<Reading, stun_rs::error::StunDecodeError>)
    ensures
        match r {
            Ok(reading) => stun_reading(bytes@) == Some(reading@),
            Err(_) => stun_reading(bytes@) is None,
        },
{
    let (message, consumed) = stun_rs::MessageDecoderBuilder::default().build().decode(bytes)?;
    let mapped_address = match message.get::<stun_rs::attributes::stun::XorMappedAddress>() {
        None => None,
        Some(attribute) => match attribute.as_xor_mapped_address() {
            Ok(xor) => Some(
                MappedAddress {
                    ip: format!("{}", xor.socket_address().ip()),
                    port: xor.socket_address().port(),
                },
            ),
            Err(_) => None,
        },
    };
    Ok(Reading { mapped_address, consumed })
}

/// Builds a Binding request with `stun_rs::StunMessageBuilder`, which draws
/// the transaction identifier at random, and writes it to the front of
/// `buffer` with `stun_rs::MessageEncoder::encode`. The result is the number
/// of bytes written.
///
/// Trusted: the encoder writes in place, so the buffer keeps its length. A
/// message without attributes fails to encode only where the buffer is
/// shorter than the header. What is written is the header alone: the type
/// of a Binding request, a zero length, the magic cookie and the
/// transaction identifier. Nothing is claimed of the identifier.
#[verifier::external_body]
fn stun_write_request(buffer: &mut Vec<u8>) -> (r: Result<usize, stun_rs::error::StunEncodeError>)
    ensures
        final(buffer)@.len() == old(buffer)@.len(),
        old(buffer)@.len() >= HEADER_SIZE ==> r is Ok,
        r matches Ok(size) ==> size == HEADER_SIZE && is_binding_request(
            final(buffer)@.take(size as int),
        ),
{
    let request = stun_rs::StunMessageBuilder::new(
        stun_rs::methods::BINDING,
        stun_rs::MessageClass::Request,
    ).build();
    stun_rs::MessageEncoderBuilder::default().build().encode(buffer.as_mut_slice(), &request)
}

/// Whether `bytes` is a Binding request without attributes: a sound header
/// with method Binding, class Request and length zero, and nothing after it.
pub open spec fn is_binding_request(bytes: Seq<u8>) -> bool {
    &&& bytes.len() == HEADER_SIZE
    &&& header_of(bytes) matches Ok(h)
    &&& h.method == BINDING
    &&& h.class == MessageClass::Request
    &&& h.length == 0
}

/// Takes the first `size` bytes of `buffer` as an encoded request, if they
/// are one.
pub fn request_from_buffer(buffer: Vec<u8>, size: usize) -> (r: Option<Vec<u8>>)
    ensures
        match r {
            Some(request) => {
                &&& size <= buffer@.len()
                &&& request@ == buffer@.take(size as int)
                &&& is_binding_request(request@)
            },
            None => size > buffer@.len() || !is_binding_request(buffer@.take(size as int)),
        },
{
    if size > buffer.len() {
        return None;
    }
    let mut request = buffer;
    request.truncate(size);
    match crate::wire::parse_header(request.as_slice()) {
        Ok(header) => {
            if size == HEADER_SIZE && header.method == BINDING && header.class
                == MessageClass::Request && header.length == 0 {
                Some(request)
            } else {
                None
            }
        },
        Err(_) => None,
    }
}

/// Encodes a Binding request with a fresh transaction identifier and no
/// attributes. The scratch buffer holds the header with room to spare, so
/// the request is always there.
pub fn encode_binding_request() -> (r: Option<Vec<u8>>)
    ensures
        r matches Some(request) && is_binding_request(request@),
{
    let mut buffer: Vec<u8> = vec![0u8; REQUEST_BUFFER_SIZE];
    match stun_write_request(&mut buffer) {
        Ok(size) => request_from_buffer(buffer, size),
        Err(_) => None,
    }
}

/// The message with the fields of `header` and the given address.
pub open spec fn message_of(
    header: HeaderView,
    mapped_address: Option<MappedAddressView>,
) -> StunMessageView {
    StunMessageView {
        method: header.method,
        class: header.class,
        transaction_id: header.transaction_id,
        mapped_address,
    }
}

/// The message that a sound header and a reading of the same buffer make,
/// if the reading is there and consumed exactly the framed message.
pub open spec fn assembled(header: HeaderView, reading: Option<ReadingView>) -> Result<
    (StunMessageView, usize),
    DecodeError,
> {
    match reading {
        None => Err(DecodeError::Malformed),
        Some(found) => if found.consumed != HEADER_SIZE + header.length {
            Err(DecodeError::Malformed)
        } else {
            Ok((message_of(header, found.mapped_address), found.consumed))
        },
    }
}

/// What decoding `bytes` gives, for each outcome of the attribute decoder.
/// A soundly framed message that declares no attributes is the message of
/// its header; the attribute decoder has no say in it.
pub open spec fn decoded(bytes: Seq<u8>, reading: Option<ReadingView>) -> Result<
    (StunMessageView, usize),
    DecodeError,
> {
    match frame_of(bytes) {
        Err(e) => Err(e),
        Ok(header) => if header.length == 0 {
            Ok((message_of(header, None), HEADER_SIZE))
        } else {
            assembled(header, reading)
        },
    }
}

/// The mathematical value of the result of a decoding.
pub open spec fn decoding_view(r: Result<(StunMessage, usize), DecodeError>) -> Result<
    (StunMessageView, usize),
    DecodeError,
> {
    match r {
        Ok((message, consumed)) => Ok((message@, consumed)),
        Err(e) => Err(e),
    }
}

/// Joins the header of a soundly framed buffer with what the attribute
/// decoder read in the same buffer.
pub fn assemble(header: Header, reading: Option<Reading>) -> (r: Result<
    (StunMessage, usize),
    DecodeError,
>)
    ensures
        decoding_view(r) == assembled(header@, reading_view(reading)),
{
    match reading {
        None => Err(DecodeError::Malformed),
        Some(found) => {
            if found.consumed != HEADER_SIZE + header.length as usize {
                Err(DecodeError::Malformed)
            } else {
                Ok(
                    (
                        StunMessage {
                            method: header.method,
                            class: header.class,
                            transaction_id: header.transaction_id,
                            mapped_address: found.mapped_address,
                        },
                        found.consumed,
                    ),
                )
            }
        },
    }
}

/// Decodes the message at the start of `bytes` and tells how many bytes it
/// occupies. The caller compares that number with the number of bytes
/// received.
///
/// The framing decides first: a buffer shorter than the header or than the
/// length it declares, a wrong magic cookie and an attribute that overruns
/// the message are each reported as such. A soundly framed message without
/// attributes is complete with its header. One with attributes is handed to
/// the attribute decoder, and is malformed where that rejects it.
pub fn decode(bytes: &[u8]) -> (r: Result<(StunMessage, usize), DecodeError>)
    ensures
        decoding_view(r) == decoded(bytes@, stun_reading(bytes@)),
        bytes@.len() < HEADER_SIZE || bytes@.len() < HEADER_SIZE + declared_length(bytes@)
            ==> r is Err,
        r matches Ok((_, consumed)) ==> consumed == frame_size(bytes@) && consumed
            <= bytes@.len(),
{
    match check_frame(bytes) {
        Err(e) => Err(e),
        Ok(header) => {
            if header.length == 0 {
                Ok(
                    (
                        StunMessage {
                            method: header.method,
                            class: header.class,
                            transaction_id: header.transaction_id,
                            mapped_address: None,
                        },
                        HEADER_SIZE,
                    ),
                )
            } else {
                let reading = match stun_read(bytes) {
                    Ok(found) => Some(found),
                    Err(_) => None,
                };
                assemble(header, reading)
            }
        },
    }
}

/// The reflexive transport address that a message carries.
pub fn extract_mapped_address(message: StunMessage) -> (r: Result<MappedAddress, AttributeMissing>)
    ensures
        match r {
            Ok(address) => message.mapped_address == Some(address),
            Err(_) => message.mapped_address is None,
        },
        r is Ok <==> message@.mapped_address is Some,
{
    match message.mapped_address {
        Some(address) => Ok(address),
        None => Err(AttributeMissing),
    }
}

/// Decoding a request that the codec built gives a message of the same
/// method and class, Binding and Request, with the transaction identifier
/// of the request, and accounts for every byte of it.
pub proof fn lemma_request_round_trip(request: Seq<u8>)
    requires
        is_binding_request(request),
    ensures
        decoded(request, stun_reading(request)) matches Ok((message, consumed)) && {
            &&& message.method == BINDING
            &&& message.class == MessageClass::Request
            &&& message.transaction_id == request.subrange(8, 20)
            &&& message.mapped_address is None
            &&& consumed == request.len()
        },
{
    assert(request.subrange(HEADER_SIZE as int, HEADER_SIZE as int).len() == 0);
}

/// A buffer that is shorter than the header, or shorter than the header
/// and the length that it declares, does not decode, whatever the attribute
/// decoder makes of it.
pub proof fn lemma_short_buffer_is_rejected(bytes: Seq<u8>, reading: Option<ReadingView>)
    requires
        bytes.len() < HEADER_SIZE || bytes.len() < HEADER_SIZE + declared_length(bytes),
    ensures
        decoded(bytes, reading) is Err,
{
}

} // verus!
