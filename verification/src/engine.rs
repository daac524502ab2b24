//! The messaging engine: text becomes one datagram on the way out, one
//! datagram becomes text on the way in, and the receive loop is a state
//! machine that is told what each receive attempt gave.

use vstd::prelude::*;
use vstd::slice::slice_to_vec;
use vstd::utf8::decode_utf8;
use vstd::utf8::encode_utf8;
use vstd::utf8::encode_utf8_decode_utf8;
use vstd::utf8::encode_utf8_valid_utf8;
use vstd::utf8::valid_utf8;

verus! {

/// Size of the buffer that a datagram of the peer is received into.
pub const RECEIVE_BUFFER_SIZE: usize = 256;

/// How long the receive loop rests when nothing has arrived, in
/// milliseconds.
pub const RETRY_DELAY_MILLIS: u64 = 80;

/// A message of the peer, on its way to the console.
#[derive(Clone, Debug, PartialEq, Eq)]
pub struct InboundMessage {
    pub text_content: String,
}

/// The text that `String::from_utf8_lossy` makes of `bytes`.
pub uninterp spec fn lossy_text(bytes: Seq<u8>) -> Seq<char>;

/// Calls `String::from_utf8_lossy` and takes the result as a `String`.
///
/// Trusted: the text is a function of the bytes alone, named
/// [`lossy_text`], and bytes that are valid UTF-8 give the text that they
/// encode.
#[verifier::external_body]
fn text_from_utf8_lossy(bytes: &[u8]) -> (r: String)
    ensures
        r@ == lossy_text(bytes@),
        valid_utf8(bytes@) ==> r@ == decode_utf8(bytes@),
{
    String::from_utf8_lossy(bytes).into_owned()
}

/// The bytes of the datagram that carries `text`: its UTF-8 encoding, with
/// no prefix and no delimiter.
pub open spec fn datagram_of(text: Seq<char>) -> Seq<u8> {
    encode_utf8(text)
}

/// The text that a received datagram is taken for: what it encodes if it
/// is valid UTF-8, and otherwise the lossy reading of it, in which each
/// malformed sequence is replaced.
pub open spec fn text_of(datagram: Seq<u8>) -> Seq<char> {
    if valid_utf8(datagram) {
        decode_utf8(datagram)
    } else {
        lossy_text(datagram)
    }
}

/// The datagram to send for a line of text.
pub fn outbound_datagram(text: &str) -> (r: Vec<u8>)
    ensures
        r@ == datagram_of(text@),
{
    slice_to_vec(text.as_bytes())
}

/// The message that a received datagram carries. No datagram is rejected.
pub fn inbound_message(datagram: &[u8]) -> (r: InboundMessage)
    ensures
        r.text_content@ == text_of(datagram@),
{
    InboundMessage { text_content: text_from_utf8_lossy(datagram) }
}

/// A text that leaves as one datagram and arrives whole is read as the
/// same text.
pub proof fn lemma_text_survives_transport(text: Seq<char>)
    ensures
        text_of(datagram_of(text)) == text,
{
    encode_utf8_valid_utf8(text);
    encode_utf8_decode_utf8(text);
}

/// Where the receive loop stands.
#[derive(Clone, Copy, Debug, PartialEq, Eq, Structural)]
pub enum EngineState {
    /// Not started.
    Idle,
    /// Waiting for a datagram of the peer.
    Listening,
    /// A message is being handed to the console.
    Delivering,
    /// The loop has ended.
    Stopped,
}

/// What the receive loop is told.
#[derive(Clone, Debug, PartialEq, Eq)]
pub enum ReceiveEvent {
    /// The loop was started on a socket in non-blocking mode.
    Started,
    /// A receive attempt gave these bytes.
    Datagram(Vec<u8>),
    /// A receive attempt found nothing waiting.
    WouldBlock,
    /// A receive attempt failed in another way.
    TransportError,
    /// The console's inbox took the message.
    Delivered,
    /// The console's inbox is gone.
    ConsumerGone,
}

/// What the receive loop must do next.
#[derive(Clone, Debug, PartialEq, Eq)]
pub enum ReceiveAction {
    /// Nothing.
    Nothing,
    /// Attempt a receive.
    Receive,
    /// Rest for this many milliseconds, then attempt a receive.
    Sleep(u64),
    /// Put this message into the console's inbox.
    Forward(InboundMessage),
    /// End the loop.
    Stop,
}

/// The mathematical value of a [`ReceiveAction`].
pub enum ReceiveActionView {
    Nothing,
    Receive,
    Sleep(u64),
    Forward(Seq<char>),
    Stop,
}

impl View for ReceiveAction {
    type V = ReceiveActionView;

    open spec fn view(&self) -> ReceiveActionView {
        match self {
            ReceiveAction::Nothing => ReceiveActionView::Nothing,
            ReceiveAction::Receive => ReceiveActionView::Receive,
            ReceiveAction::Sleep(millis) => ReceiveActionView::Sleep(*millis),
            ReceiveAction::Forward(message) => ReceiveActionView::Forward(message.text_content@),
            ReceiveAction::Stop => ReceiveActionView::Stop,
        }
    }
}

/// The state of the loop after an event. An event that the state does not
/// expect changes nothing.
pub open spec fn next_state(state: EngineState, event: ReceiveEvent) -> EngineState {
    match (state, event) {
        (EngineState::Idle, ReceiveEvent::Started) => EngineState::Listening,
        (EngineState::Listening, ReceiveEvent::Datagram(_)) => EngineState::Delivering,
        (EngineState::Delivering, ReceiveEvent::Delivered) => EngineState::Listening,
        (EngineState::Delivering, ReceiveEvent::ConsumerGone) => EngineState::Stopped,
        _ => state,
    }
}

/// What the loop does in answer to an event. A datagram is forwarded as
/// its text; an empty socket makes the loop rest; any other transport error
/// is passed over and the receive is attempted again.
pub open spec fn action_for(state: EngineState, event: ReceiveEvent) -> ReceiveActionView {
    match (state, event) {
        (EngineState::Idle, ReceiveEvent::Started) => ReceiveActionView::Receive,
        (EngineState::Listening, ReceiveEvent::Datagram(bytes)) => ReceiveActionView::Forward(
            text_of(bytes@),
        ),
        (EngineState::Listening, ReceiveEvent::WouldBlock) => ReceiveActionView::Sleep(
            RETRY_DELAY_MILLIS,
        ),
        (EngineState::Listening, ReceiveEvent::TransportError) => ReceiveActionView::Receive,
        (EngineState::Delivering, ReceiveEvent::Delivered) => ReceiveActionView::Receive,
        (EngineState::Delivering, ReceiveEvent::ConsumerGone) => ReceiveActionView::Stop,
        _ => ReceiveActionView::Nothing,
    }
}

/// One step of the receive loop.
pub fn receive_step(state: EngineState, event: ReceiveEvent) -> (r: (EngineState, ReceiveAction))
    ensures
        r.0 == next_state(state, event),
        r.1@ == action_for(state, event),
{
    match state {
        EngineState::Idle => match event {
            ReceiveEvent::Started => (EngineState::Listening, ReceiveAction::Receive),
            _ => (state, ReceiveAction::Nothing),
        },
        EngineState::Listening => match event {
            ReceiveEvent::Datagram(bytes) => (
                EngineState::Delivering,
                ReceiveAction::Forward(inbound_message(bytes.as_slice())),
            ),
            ReceiveEvent::WouldBlock => (state, ReceiveAction::Sleep(RETRY_DELAY_MILLIS)),
            ReceiveEvent::TransportError => (state, ReceiveAction::Receive),
            _ => (state, ReceiveAction::Nothing),
        },
        EngineState::Delivering => match event {
            ReceiveEvent::Delivered => (EngineState::Listening, ReceiveAction::Receive),
            ReceiveEvent::ConsumerGone => (EngineState::Stopped, ReceiveAction::Stop),
            _ => (state, ReceiveAction::Nothing),
        },
        EngineState::Stopped => (state, ReceiveAction::Nothing),
    }
}

} // verus!
