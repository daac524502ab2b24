use peer_chat::discovery::address_from_decoding;
use peer_chat::discovery::address_from_response;
use peer_chat::discovery::advance;
use peer_chat::discovery::discovery_step;
use peer_chat::discovery::DiscoveryAction;
use peer_chat::discovery::DiscoveryError;
use peer_chat::discovery::DiscoveryEvent;
use peer_chat::discovery::DiscoveryState;
use peer_chat::discovery::DEFAULT_STUN_SERVER;
use peer_chat::stun::MappedAddress;
use peer_chat::stun::StunMessage;
use peer_chat::wire::DecodeError;
use peer_chat::wire::MessageClass;

fn response_with_address() -> Vec<u8> {
    let mut bytes = vec![0x01, 0x01, 0x00, 0x0c, 0x21, 0x12, 0xa4, 0x42];
    bytes.extend_from_slice(&[0xb7, 0xe7, 0xa7, 0x01, 0xbc, 0x34, 0xd6, 0x86, 0xfa, 0x87, 0xdf, 0xae]);
    bytes.extend_from_slice(&[0x00, 0x20, 0x00, 0x08, 0x00, 0x01, 0xa1, 0x47, 0xe1, 0x12, 0xa6, 0x43]);
    bytes
}

fn response_with_software_only() -> Vec<u8> {
    let mut bytes = vec![0x01, 0x01, 0x00, 0x10, 0x21, 0x12, 0xa4, 0x42];
    bytes.extend_from_slice(&[0xb7, 0xe7, 0xa7, 0x01, 0xbc, 0x34, 0xd6, 0x86, 0xfa, 0x87, 0xdf, 0xae]);
    bytes.extend_from_slice(&[0x80, 0x22, 0x00, 0x0b]);
    bytes.extend_from_slice(b"test vector ");
    bytes
}

fn error_response() -> Vec<u8> {
    // Error response with ERROR-CODE 400 and the reason "Bad".
    let mut bytes = vec![0x01, 0x11, 0x00, 0x0c, 0x21, 0x12, 0xa4, 0x42];
    bytes.extend_from_slice(&[0xb7, 0xe7, 0xa7, 0x01, 0xbc, 0x34, 0xd6, 0x86, 0xfa, 0x87, 0xdf, 0xae]);
    bytes.extend_from_slice(&[0x00, 0x09, 0x00, 0x07, 0x00, 0x00, 0x04, 0x00, b'B', b'a', b'd', 0x00]);
    bytes
}

fn message(mapped_address: Option<MappedAddress>) -> StunMessage {
    StunMessage {
        method: 1,
        class: MessageClass::SuccessResponse,
        transaction_id: vec![0; 12],
        mapped_address,
    }
}

#[test]
fn default_server_is_named() {
    assert_eq!(DEFAULT_STUN_SERVER, "stun1.l.google.com:19302");
}

#[test]
fn response_gives_the_public_address() {
    let address = address_from_response(&response_with_address()).expect("the address is there");
    assert_eq!(address, MappedAddress { ip: "192.0.2.1".to_string(), port: 32853 });
}

#[test]
fn response_without_address_is_attribute_missing() {
    assert_eq!(
        address_from_response(&response_with_software_only()).unwrap_err(),
        DiscoveryError::AttributeMissing
    );
}

#[test]
fn error_response_is_attribute_missing() {
    assert_eq!(
        address_from_response(&error_response()).unwrap_err(),
        DiscoveryError::AttributeMissing
    );
}

#[test]
fn trailing_bytes_fail_the_discovery() {
    let mut bytes = response_with_address();
    bytes.push(0x00);
    assert_eq!(address_from_response(&bytes).unwrap_err(), DiscoveryError::DecodeFailed);
}

#[test]
fn short_response_fails_the_discovery() {
    let bytes = response_with_address();
    assert_eq!(
        address_from_response(&bytes[..bytes.len() - 1]).unwrap_err(),
        DiscoveryError::DecodeFailed
    );
    assert_eq!(address_from_response(&[]).unwrap_err(), DiscoveryError::DecodeFailed);
}

#[test]
fn text_is_no_response() {
    assert_eq!(
        address_from_response(b"hello, this is not a STUN message").unwrap_err(),
        DiscoveryError::DecodeFailed
    );
}

#[test]
fn decoding_is_judged_against_the_received_length() {
    let address = MappedAddress { ip: "203.0.113.9".to_string(), port: 7070 };
    assert_eq!(
        address_from_decoding(Ok((message(Some(address.clone())), 32)), 32),
        Ok(address.clone())
    );
    assert_eq!(
        address_from_decoding(Ok((message(Some(address)), 32)), 33),
        Err(DiscoveryError::DecodeFailed)
    );
    assert_eq!(
        address_from_decoding(Ok((message(None), 20)), 20),
        Err(DiscoveryError::AttributeMissing)
    );
    assert_eq!(
        address_from_decoding(Ok((message(None), 20)), 21),
        Err(DiscoveryError::DecodeFailed)
    );
    for e in [
        DecodeError::Truncated,
        DecodeError::BadMagicCookie,
        DecodeError::AttributeOverrun,
        DecodeError::Malformed,
    ] {
        assert_eq!(address_from_decoding(Err(e), 20), Err(DiscoveryError::DecodeFailed));
    }
}

#[test]
fn discovery_runs_from_request_to_address() {
    let (state, action) = discovery_step(DiscoveryState::Idle, DiscoveryEvent::Begin);
    assert_eq!(state, DiscoveryState::Sending);
    let request = match action {
        DiscoveryAction::Send(bytes) => bytes,
        other => panic!("unexpected action {:?}", other),
    };
    assert_eq!(request.len(), 20);
    assert_eq!(&request[..8], &[0x00, 0x01, 0x00, 0x00, 0x21, 0x12, 0xa4, 0x42]);

    let (state, action) = discovery_step(state, DiscoveryEvent::Sent);
    assert_eq!(state, DiscoveryState::Waiting);
    assert_eq!(action, DiscoveryAction::Receive);

    let (state, action) = discovery_step(state, DiscoveryEvent::Received(response_with_address()));
    assert_eq!(state, DiscoveryState::Done);
    assert_eq!(
        action,
        DiscoveryAction::Finish(MappedAddress { ip: "192.0.2.1".to_string(), port: 32853 })
    );

    let (state, action) = discovery_step(state, DiscoveryEvent::Sent);
    assert_eq!(state, DiscoveryState::Done);
    assert_eq!(action, DiscoveryAction::Nothing);
}

#[test]
fn refused_request_fails_the_discovery() {
    let (state, action) = discovery_step(DiscoveryState::Sending, DiscoveryEvent::SendFailed);
    assert_eq!(state, DiscoveryState::Failed);
    assert_eq!(action, DiscoveryAction::Abort(DiscoveryError::SendFailed));
}

#[test]
fn failed_receive_fails_the_discovery() {
    let (state, action) = discovery_step(DiscoveryState::Waiting, DiscoveryEvent::ReceiveFailed);
    assert_eq!(state, DiscoveryState::Failed);
    assert_eq!(action, DiscoveryAction::Abort(DiscoveryError::ReceiveFailed));
}

#[test]
fn bad_response_fails_the_discovery() {
    let (state, action) = discovery_step(
        DiscoveryState::Waiting,
        DiscoveryEvent::Received(response_with_software_only()),
    );
    assert_eq!(state, DiscoveryState::Failed);
    assert_eq!(action, DiscoveryAction::Abort(DiscoveryError::AttributeMissing));

    let (state, action) =
        discovery_step(DiscoveryState::Waiting, DiscoveryEvent::Received(vec![1, 2, 3]));
    assert_eq!(state, DiscoveryState::Failed);
    assert_eq!(action, DiscoveryAction::Abort(DiscoveryError::DecodeFailed));
}

#[test]
fn missing_request_is_an_encode_failure() {
    let (state, action) = advance(DiscoveryState::Idle, DiscoveryEvent::Begin, None);
    assert_eq!(state, DiscoveryState::Failed);
    assert_eq!(action, DiscoveryAction::Abort(DiscoveryError::EncodeFailed));

    let (state, action) = advance(DiscoveryState::Idle, DiscoveryEvent::Begin, Some(vec![7, 7]));
    assert_eq!(state, DiscoveryState::Sending);
    assert_eq!(action, DiscoveryAction::Send(vec![7, 7]));
}

#[test]
fn unexpected_events_change_nothing() {
    for state in [
        DiscoveryState::Idle,
        DiscoveryState::Done,
        DiscoveryState::Failed,
        DiscoveryState::Sending,
    ] {
        let (next, action) = discovery_step(state, DiscoveryEvent::Received(response_with_address()));
        assert_eq!(next, state);
        assert_eq!(action, DiscoveryAction::Nothing);
    }
    let (next, action) = discovery_step(DiscoveryState::Waiting, DiscoveryEvent::Begin);
    assert_eq!(next, DiscoveryState::Waiting);
    assert_eq!(action, DiscoveryAction::Nothing);
    let (next, action) = discovery_step(DiscoveryState::Idle, DiscoveryEvent::Sent);
    assert_eq!(next, DiscoveryState::Idle);
    assert_eq!(action, DiscoveryAction::Nothing);
}
