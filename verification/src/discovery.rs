//! The address discovery client: one Binding request to a STUN server, one
//! response, and the public address that the response carries.
//!
//! The program owns the socket. It is told to send the request and to wait
//! for the response, and reports how each went.

use crate::stun::decode;
use crate::stun::decoded;
use crate::stun::decoding_view;
use crate::stun::encode_binding_request;
use crate::stun::extract_mapped_address;
use crate::stun::is_binding_request;
use crate::stun::stun_reading;
use crate::stun::MappedAddress;
use crate::stun::MappedAddressView;
use crate::stun::StunMessage;
use crate::stun::StunMessageView;
use crate::wire::DecodeError;
use vstd::prelude::*;

verus! {

/// The STUN server that is asked when the user names no other.
pub const DEFAULT_STUN_SERVER: &'static str = "stun1.l.google.com:19302";

/// Why a discovery attempt failed.
#[derive(Clone, Copy, Debug, PartialEq, Eq, Structural)]
pub enum DiscoveryError {
    /// The request could not be encoded.
    EncodeFailed,
    /// The transport refused the request.
    SendFailed,
    /// Waiting for the response ended in a transport error.
    ReceiveFailed,
    /// What arrived is not a STUN message, or is one followed by other
    /// bytes.
    DecodeFailed,
    /// The response carries no XOR-MAPPED-ADDRESS attribute.
    AttributeMissing,
}

/// The outcome of a discovery, given what decoding the received bytes gave
/// and how many bytes were received. The message must account for every
/// byte received, and it must carry the mapped address.
pub open spec fn outcome_of(
    decoding: Result<(StunMessageView, usize), DecodeError>,
    received: int,
) -> Result<MappedAddressView, DiscoveryError> {
    match decoding {
        Err(_) => Err(DiscoveryError::DecodeFailed),
        Ok((message, consumed)) => if consumed != received {
            Err(DiscoveryError::DecodeFailed)
        } else {
            match message.mapped_address {
                Some(address) => Ok(address),
                None => Err(DiscoveryError::AttributeMissing),
            }
        },
    }
}

/// The outcome of a discovery in which these bytes were received.
pub open spec fn response_outcome(received: Seq<u8>) -> Result<MappedAddressView, DiscoveryError> {
    outcome_of(decoded(received, stun_reading(received)), received.len() as int)
}

/// The mathematical value of the outcome of a discovery.
pub open spec fn outcome_view(r: Result<MappedAddress, DiscoveryError>) -> Result<
    MappedAddressView,
    DiscoveryError,
> {
    match r {
        Ok(address) => Ok(address@),
        Err(e) => Err(e),
    }
}

/// Judges a decoded response against the number of bytes received.
pub fn address_from_decoding(
    decoding: Result<(StunMessage, usize), DecodeError>,
    received: usize,
) -> (r: Result<MappedAddress, DiscoveryError>)
    ensures
        outcome_view(r) == outcome_of(decoding_view(decoding), received as int),
{
    match decoding {
        Err(_) => Err(DiscoveryError::DecodeFailed),
        Ok((message, consumed)) => {
            if consumed != received {
                Err(DiscoveryError::DecodeFailed)
            } else {
                match extract_mapped_address(message) {
                    Ok(address) => Ok(address),
                    Err(_) => Err(DiscoveryError::AttributeMissing),
                }
            }
        },
    }
}

/// The public address that the received bytes announce.
pub fn address_from_response(received: &[u8]) -> (r: Result<MappedAddress, DiscoveryError>)
    ensures
        outcome_view(r) == response_outcome(received@),
{
    address_from_decoding(decode(received), received.len())
}

/// A response that decodes, accounts for every byte received and carries
/// no mapped address makes the discovery fail for want of the attribute.
pub proof fn lemma_response_without_address_is_refused(
    message: StunMessageView,
    consumed: usize,
    received: int,
)
    requires
        consumed == received,
        message.mapped_address is None,
    ensures
        outcome_of(Ok((message, consumed)), received) == Err::<
            MappedAddressView,
            DiscoveryError,
        >(DiscoveryError::AttributeMissing),
{
}

/// Where a discovery attempt stands.
#[derive(Clone, Copy, Debug, PartialEq, Eq, Structural)]
pub enum DiscoveryState {
    /// Nothing was done yet.
    Idle,
    /// The request was handed out for sending.
    Sending,
    /// The request is out and the response is awaited.
    Waiting,
    /// The public address is known.
    Done,
    /// The attempt failed.
    Failed,
}

/// What a discovery attempt is told.
#[derive(Clone, Debug, PartialEq, Eq)]
pub enum DiscoveryEvent {
    /// The attempt is to start.
    Begin,
    /// The request went out.
    Sent,
    /// The transport refused the request.
    SendFailed,
    /// These bytes arrived.
    Received(Vec<u8>),
    /// Waiting for the response ended in a transport error.
    ReceiveFailed,
}

/// What the program must do next for a discovery attempt.
#[derive(Clone, Debug, PartialEq, Eq)]
pub enum DiscoveryAction {
    /// Nothing.
    Nothing,
    /// Point the socket at the STUN server and send these bytes.
    Send(Vec<u8>),
    /// Wait for one datagram.
    Receive,
    /// The attempt succeeded with this address.
    Finish(MappedAddress),
    /// The attempt failed.
    Abort(DiscoveryError),
}

/// The mathematical value of a [`DiscoveryAction`].
pub enum DiscoveryActionView {
    Nothing,
    Send(Seq<u8>),
    Receive,
    Finish(MappedAddressView),
    Abort(DiscoveryError),
}

impl View for DiscoveryAction {
    type V = DiscoveryActionView;

    open spec fn view(&self) -> DiscoveryActionView {
        match self {
            DiscoveryAction::Nothing => DiscoveryActionView::Nothing,
            DiscoveryAction::Send(request) => DiscoveryActionView::Send(request@),
            DiscoveryAction::Receive => DiscoveryActionView::Receive,
            DiscoveryAction::Finish(address) => DiscoveryActionView::Finish(address@),
            DiscoveryAction::Abort(e) => DiscoveryActionView::Abort(*e),
        }
    }
}

/// The value of an encoded request that may be absent.
pub open spec fn request_view(request: Option<Vec<u8>>) -> Option<Seq<u8>> {
    match request {
        Some(bytes) => Some(bytes@),
        None => None,
    }
}

/// The step that an attempt takes on an event. `request` is what encoding
/// the request gave; it matters at the start only. An event that the state
/// does not expect changes nothing.
pub open spec fn advanced(state: DiscoveryState, event: DiscoveryEvent, request: Option<Seq<u8>>) -> (
    DiscoveryState,
    DiscoveryActionView,
) {
    match (state, event) {
        (DiscoveryState::Idle, DiscoveryEvent::Begin) => match request {
            Some(bytes) => (DiscoveryState::Sending, DiscoveryActionView::Send(bytes)),
            None => (
                DiscoveryState::Failed,
                DiscoveryActionView::Abort(DiscoveryError::EncodeFailed),
            ),
        },
        (DiscoveryState::Sending, DiscoveryEvent::Sent) => (
            DiscoveryState::Waiting,
            DiscoveryActionView::Receive,
        ),
        (DiscoveryState::Sending, DiscoveryEvent::SendFailed) => (
            DiscoveryState::Failed,
            DiscoveryActionView::Abort(DiscoveryError::SendFailed),
        ),
        (DiscoveryState::Waiting, DiscoveryEvent::Received(bytes)) => match response_outcome(
            bytes@,
        ) {
            Ok(address) => (DiscoveryState::Done, DiscoveryActionView::Finish(address)),
            Err(e) => (DiscoveryState::Failed, DiscoveryActionView::Abort(e)),
        },
        (DiscoveryState::Waiting, DiscoveryEvent::ReceiveFailed) => (
            DiscoveryState::Failed,
            DiscoveryActionView::Abort(DiscoveryError::ReceiveFailed),
        ),
        _ => (state, DiscoveryActionView::Nothing),
    }
}

/// Whether the attempt is about to encode its request.
pub open spec fn starts(state: DiscoveryState, event: DiscoveryEvent) -> bool {
    state == DiscoveryState::Idle && event is Begin
}

/// One step of a discovery attempt, with the encoded request supplied by
/// the caller.
pub fn advance(state: DiscoveryState, event: DiscoveryEvent, request: Option<Vec<u8>>) -> (r: (
    DiscoveryState,
    DiscoveryAction,
))
    ensures
        (r.0, r.1@) == advanced(state, event, request_view(request)),
{
    match state {
        DiscoveryState::Idle => match event {
            DiscoveryEvent::Begin => match request {
                Some(bytes) => (DiscoveryState::Sending, DiscoveryAction::Send(bytes)),
                None => (
                    DiscoveryState::Failed,
                    DiscoveryAction::Abort(DiscoveryError::EncodeFailed),
                ),
            },
            _ => (state, DiscoveryAction::Nothing),
        },
        DiscoveryState::Sending => match event {
            DiscoveryEvent::Sent => (DiscoveryState::Waiting, DiscoveryAction::Receive),
            DiscoveryEvent::SendFailed => (
                DiscoveryState::Failed,
                DiscoveryAction::Abort(DiscoveryError::SendFailed),
            ),
            _ => (state, DiscoveryAction::Nothing),
        },
        DiscoveryState::Waiting => match event {
            DiscoveryEvent::Received(bytes) => match address_from_response(bytes.as_slice()) {
                Ok(address) => (DiscoveryState::Done, DiscoveryAction::Finish(address)),
                Err(e) => (DiscoveryState::Failed, DiscoveryAction::Abort(e)),
            },
            DiscoveryEvent::ReceiveFailed => (
                DiscoveryState::Failed,
                DiscoveryAction::Abort(DiscoveryError::ReceiveFailed),
            ),
            _ => (state, DiscoveryAction::Nothing),
        },
        _ => (state, DiscoveryAction::Nothing),
    }
}

/// One step of a discovery attempt. At the start the request is encoded
/// here and handed out for sending: a Binding request without attributes.
pub fn discovery_step(state: DiscoveryState, event: DiscoveryEvent) -> (r: (
    DiscoveryState,
    DiscoveryAction,
))
    ensures
        !starts(state, event) ==> (r.0, r.1@) == advanced(state, event, None),
        starts(state, event) ==> {
            &&& r.0 == DiscoveryState::Sending
            &&& r.1@ matches DiscoveryActionView::Send(request)
            &&& is_binding_request(request)
        },
{
    let begins = match (state, &event) {
        (DiscoveryState::Idle, DiscoveryEvent::Begin) => true,
        _ => false,
    };
    if begins {
        let request = encode_binding_request();
        advance(state, event, request)
    } else {
        advance(state, event, None)
    }
}

} // verus!
