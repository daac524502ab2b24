use peer_chat::stun::decode;
use peer_chat::stun::encode_binding_request;
use peer_chat::stun::extract_mapped_address;
use peer_chat::stun::AttributeMissing;
use peer_chat::wire::DecodeError;
use peer_chat::wire::MessageClass;

/// Response of the published test vectors that maps 192.0.2.1 port 32853.
fn ipv4_response() -> Vec<u8> {
    vec![
        0x01, 0x01, 0x00, 0x3c, 0x21, 0x12, 0xa4, 0x42, 0xb7, 0xe7, 0xa7, 0x01, 0xbc, 0x34, 0xd6,
        0x86, 0xfa, 0x87, 0xdf, 0xae, 0x80, 0x22, 0x00, 0x0b, 0x74, 0x65, 0x73, 0x74, 0x20, 0x76,
        0x65, 0x63, 0x74, 0x6f, 0x72, 0x20, 0x00, 0x20, 0x00, 0x08, 0x00, 0x01, 0xa1, 0x47, 0xe1,
        0x12, 0xa6, 0x43, 0x00, 0x08, 0x00, 0x14, 0x2b, 0x91, 0xf5, 0x99, 0xfd, 0x9e, 0x90, 0xc3,
        0x8c, 0x74, 0x89, 0xf9, 0x2a, 0xf9, 0xba, 0x53, 0xf0, 0x6b, 0xe7, 0xd7, 0x80, 0x28, 0x00,
        0x04, 0xc0, 0x7d, 0x4c, 0x96,
    ]
}

/// Response of the published test vectors that maps
/// 2001:db8:1234:5678:11:2233:4455:6677 port 32853.
fn ipv6_response() -> Vec<u8> {
    vec![
        0x01, 0x01, 0x00, 0x48, 0x21, 0x12, 0xa4, 0x42, 0xb7, 0xe7, 0xa7, 0x01, 0xbc, 0x34, 0xd6,
        0x86, 0xfa, 0x87, 0xdf, 0xae, 0x80, 0x22, 0x00, 0x0b, 0x74, 0x65, 0x73, 0x74, 0x20, 0x76,
        0x65, 0x63, 0x74, 0x6f, 0x72, 0x20, 0x00, 0x20, 0x00, 0x14, 0x00, 0x02, 0xa1, 0x47, 0x01,
        0x13, 0xa9, 0xfa, 0xa5, 0xd3, 0xf1, 0x79, 0xbc, 0x25, 0xf4, 0xb5, 0xbe, 0xd2, 0xb9, 0xd9,
        0x00, 0x08, 0x00, 0x14, 0xa3, 0x82, 0x95, 0x4e, 0x4b, 0xe6, 0x7b, 0xf1, 0x17, 0x84, 0xc9,
        0x7c, 0x82, 0x92, 0xc2, 0x75, 0xbf, 0xe3, 0xed, 0x41, 0x80, 0x28, 0x00, 0x04, 0xc8, 0xfb,
        0x0b, 0x4c,
    ]
}

/// A success response whose only attribute is SOFTWARE.
fn response_without_address() -> Vec<u8> {
    vec![
        0x01, 0x01, 0x00, 0x10, 0x21, 0x12, 0xa4, 0x42, 0xb7, 0xe7, 0xa7, 0x01, 0xbc, 0x34, 0xd6,
        0x86, 0xfa, 0x87, 0xdf, 0xae, 0x80, 0x22, 0x00, 0x0b, 0x74, 0x65, 0x73, 0x74, 0x20, 0x76,
        0x65, 0x63, 0x74, 0x6f, 0x72, 0x20,
    ]
}

#[test]
fn request_is_twenty_bytes_with_cookie() {
    let request = encode_binding_request().expect("the request encodes");
    assert_eq!(request.len(), 20);
    assert_eq!(&request[0..8], &[0x00, 0x01, 0x00, 0x00, 0x21, 0x12, 0xa4, 0x42]);
}

#[test]
fn request_round_trips() {
    let request = encode_binding_request().expect("the request encodes");
    let (message, consumed) = decode(&request).expect("the request decodes");
    assert_eq!(consumed, request.len());
    assert_eq!(message.method, 0x0001);
    assert_eq!(message.class, MessageClass::Request);
    assert_eq!(message.transaction_id, request[8..20].to_vec());
    assert!(message.mapped_address.is_none());
}

#[test]
fn ipv4_vector_gives_address() {
    let bytes = ipv4_response();
    let (message, consumed) = decode(&bytes).expect("the vector decodes");
    assert_eq!(consumed, bytes.len());
    assert_eq!(message.method, 0x0001);
    assert_eq!(message.class, MessageClass::SuccessResponse);
    let address = extract_mapped_address(message).expect("the address is there");
    assert_eq!(address.ip, "192.0.2.1");
    assert_eq!(address.port, 32853);
}

#[test]
fn ipv6_vector_gives_address() {
    let bytes = ipv6_response();
    let (message, consumed) = decode(&bytes).expect("the vector decodes");
    assert_eq!(consumed, bytes.len());
    let address = extract_mapped_address(message).expect("the address is there");
    assert_eq!(address.ip, "2001:db8:1234:5678:11:2233:4455:6677");
    assert_eq!(address.port, 32853);
}

#[test]
fn response_without_attribute_has_no_address() {
    let bytes = response_without_address();
    let (message, consumed) = decode(&bytes).expect("the response decodes");
    assert_eq!(consumed, bytes.len());
    assert_eq!(extract_mapped_address(message).unwrap_err(), AttributeMissing);
}

#[test]
fn short_buffers_are_truncated() {
    let bytes = ipv4_response();
    assert_eq!(decode(&bytes[..19]).unwrap_err(), DecodeError::Truncated);
    assert_eq!(decode(&bytes[..20]).unwrap_err(), DecodeError::Truncated);
    assert_eq!(decode(&bytes[..bytes.len() - 1]).unwrap_err(), DecodeError::Truncated);
    assert_eq!(decode(&[]).unwrap_err(), DecodeError::Truncated);
}

#[test]
fn wrong_cookie_is_reported() {
    let mut bytes = ipv4_response();
    bytes[7] = 0x43;
    assert_eq!(decode(&bytes).unwrap_err(), DecodeError::BadMagicCookie);
}

#[test]
fn overrunning_attribute_is_reported() {
    let mut bytes = ipv4_response();
    // The last attribute claims eight bytes where four are left.
    let at = bytes.len() - 5;
    bytes[at] = 0x08;
    assert_eq!(decode(&bytes).unwrap_err(), DecodeError::AttributeOverrun);
}

#[test]
fn nonzero_leading_bits_are_malformed() {
    let mut bytes = ipv4_response();
    bytes[0] = 0x41;
    assert_eq!(decode(&bytes).unwrap_err(), DecodeError::Malformed);
}

#[test]
fn unknown_address_family_is_malformed() {
    let mut bytes = ipv4_response();
    // Family byte of the XOR-MAPPED-ADDRESS value.
    bytes[41] = 0x07;
    assert_eq!(decode(&bytes).unwrap_err(), DecodeError::Malformed);
}

#[test]
fn trailing_bytes_are_not_consumed() {
    let mut bytes = ipv4_response();
    let whole = bytes.len();
    bytes.extend_from_slice(&[0xde, 0xad]);
    let (_, consumed) = decode(&bytes).expect("the message decodes");
    assert_eq!(consumed, whole);
    assert_ne!(consumed, bytes.len());
}

#[test]
fn requests_differ_in_their_transaction_identifier_only() {
    let first = encode_binding_request().expect("the request encodes");
    let second = encode_binding_request().expect("the request encodes");
    assert_eq!(first[..8], second[..8]);
    assert_eq!(first.len(), second.len());
}

#[test]
fn first_mapped_address_is_taken() {
    let mut bytes = vec![0x01, 0x01, 0x00, 0x18, 0x21, 0x12, 0xa4, 0x42];
    bytes.extend_from_slice(&[0xb7, 0xe7, 0xa7, 0x01, 0xbc, 0x34, 0xd6, 0x86, 0xfa, 0x87, 0xdf, 0xae]);
    bytes.extend_from_slice(&[0x00, 0x20, 0x00, 0x08, 0x00, 0x01, 0xa1, 0x47, 0xe1, 0x12, 0xa6, 0x43]);
    bytes.extend_from_slice(&[0x00, 0x20, 0x00, 0x08, 0x00, 0x01, 0xa1, 0x46, 0xe1, 0x12, 0xa6, 0x42]);
    let (message, _) = decode(&bytes).expect("the message decodes");
    let address = extract_mapped_address(message).expect("the address is there");
    assert_eq!(address.ip, "192.0.2.1");
    assert_eq!(address.port, 32853);
}

#[test]
fn address_behind_message_integrity_is_not_found() {
    let mut bytes = vec![0x01, 0x01, 0x00, 0x24, 0x21, 0x12, 0xa4, 0x42];
    bytes.extend_from_slice(&[0xb7, 0xe7, 0xa7, 0x01, 0xbc, 0x34, 0xd6, 0x86, 0xfa, 0x87, 0xdf, 0xae]);
    bytes.extend_from_slice(&[0x00, 0x08, 0x00, 0x14]);
    bytes.extend_from_slice(&[0x2b; 20]);
    bytes.extend_from_slice(&[0x00, 0x20, 0x00, 0x08, 0x00, 0x01, 0xa1, 0x47, 0xe1, 0x12, 0xa6, 0x43]);
    let (message, consumed) = decode(&bytes).expect("the message decodes");
    assert_eq!(consumed, bytes.len());
    assert_eq!(extract_mapped_address(message).unwrap_err(), AttributeMissing);
}

#[test]
fn header_alone_is_a_whole_message() {
    let mut bytes = vec![0x01, 0x11, 0x00, 0x00, 0x21, 0x12, 0xa4, 0x42];
    bytes.extend_from_slice(&[1, 2, 3, 4, 5, 6, 7, 8, 9, 10, 11, 12]);
    bytes.extend_from_slice(&[0xee, 0xee]);
    let (message, consumed) = decode(&bytes).expect("the message decodes");
    assert_eq!(consumed, 20);
    assert_eq!(message.method, 1);
    assert_eq!(message.class, MessageClass::ErrorResponse);
    assert_eq!(message.transaction_id, vec![1, 2, 3, 4, 5, 6, 7, 8, 9, 10, 11, 12]);
    assert_eq!(message.mapped_address, None);
}
