use bytes::Bytes;

use rabbit_infra::connection_request::{
    capability_tag_count, decode_connection_reply, decode_connection_request_body,
    decode_peer_capabilities, decode_tcp_accepted_reply, decode_tcp_request_body,
    encode_connection_reply, encode_connection_request_body, encode_peer_capabilities,
    encode_tcp_request_message, handshake_outcome, parse_tcp_request_preface,
    quic_request_disposition, tcp_request_disposition, tcp_request_tag_count,
    tcp_requester_name_length, tcp_response_status, ConnectionHandshakeReply, ConnectionRequest,
    ConnectionResponse, EncoderProfileTag, HandshakeCodecError, HandshakeOutcome,
    PeerCapabilities, RequestDisposition, CAPABILITY_HEADER_SIZE, CAPABILITY_TAG_ABSOLUTE_POINTER,
    PROTOCOL_VERSION_SIZE, REQUESTER_NAME_LENGTH_SIZE, TCP_ENDPOINT_IDENTITY_SIZE,
    TCP_REQUEST_MAGIC_SIZE,
};

const LOCAL_MAJOR: u16 = 1;

fn capabilities(max_screens: u8, absolute_pointer: bool) -> PeerCapabilities {
    PeerCapabilities {
        max_screens,
        encoder_profiles: vec![EncoderProfileTag(1), EncoderProfileTag(2)],
        absolute_pointer,
    }
}

fn request(name: &str) -> ConnectionRequest {
    ConnectionRequest {
        protocol_major: LOCAL_MAJOR,
        protocol_minor: 3,
        requester_name: String::from(name),
        capabilities: capabilities(1, false),
    }
}

/// What a host reads off a TCP stream, in the stages it reads them: the
/// preface with the requester's identity, then the request body.
fn host_reads_request(message: &[u8]) -> ([u8; TCP_ENDPOINT_IDENTITY_SIZE], ConnectionRequest) {
    let preface_len = TCP_REQUEST_MAGIC_SIZE + TCP_ENDPOINT_IDENTITY_SIZE;
    let identity = parse_tcp_request_preface(&message[..preface_len]).expect("preface should parse");
    let fixed_end = preface_len + PROTOCOL_VERSION_SIZE + CAPABILITY_HEADER_SIZE;
    let fixed = &message[preface_len..fixed_end];
    let tag_count = tcp_request_tag_count(fixed).expect("tag count should be valid");
    let name_len_end = fixed_end + tag_count + REQUESTER_NAME_LENGTH_SIZE;
    let profiles_and_name_len = &message[fixed_end..name_len_end];
    let name_len = tcp_requester_name_length(profiles_and_name_len, tag_count).expect("name length should be valid");
    let name = &message[name_len_end..name_len_end + name_len];
    assert_eq!(name_len_end + name_len, message.len());
    let request = decode_tcp_request_body(fixed, profiles_and_name_len, name).expect("request should decode");
    (identity, request)
}

/// What a requester reads back: the status byte, then the capabilities of an
/// accepted reply.
fn requester_reads_reply(reply: &[u8]) -> ConnectionHandshakeReply {
    match tcp_response_status(reply[0]).expect("status should be known") {
        ConnectionResponse::Accepted => {
            let header = &reply[1..1 + CAPABILITY_HEADER_SIZE];
            let count = capability_tag_count(header).expect("tag count should be valid");
            decode_tcp_accepted_reply(header, &reply[1 + CAPABILITY_HEADER_SIZE..1 + CAPABILITY_HEADER_SIZE + count])
                .expect("accepted reply should decode")
        },
        _ => decode_connection_reply(Bytes::copy_from_slice(reply)).expect("reply should decode"),
    }
}

#[test]
fn tcp_connection_request_establishes_transport_after_approval() {
    let outgoing_identity = [7u8; TCP_ENDPOINT_IDENTITY_SIZE];
    let incoming_identity = [9u8; TCP_ENDPOINT_IDENTITY_SIZE];
    let sent = request("outgoing");

    let message = encode_tcp_request_message(&outgoing_identity, &sent).expect("request should encode");
    let (peer_identity, received) = host_reads_request(&message);

    assert_eq!(received.requester_name, "outgoing");
    assert!(received.is_protocol_compatible(LOCAL_MAJOR));
    assert!(!received.capabilities.encoder_profiles.is_empty());
    let disposition = tcp_request_disposition(&peer_identity, &incoming_identity, &received, LOCAL_MAJOR);
    assert_eq!(disposition, RequestDisposition::AwaitApproval);
    assert_eq!(disposition.immediate_reply(), None);

    // The user approves.
    let reply = ConnectionHandshakeReply::Accepted { host_capabilities: capabilities(2, true) };
    let reply_bytes = encode_connection_reply(&reply).expect("reply should encode");
    let outcome = handshake_outcome(requester_reads_reply(&reply_bytes), sent.protocol_major, sent.protocol_minor);

    let HandshakeOutcome::Accepted { host_capabilities } = outcome else {
        panic!("TCP connection request should establish a transport");
    };
    assert_eq!(host_capabilities.max_screens, 2);
    assert!(host_capabilities.absolute_pointer);
}

#[test]
fn tcp_endpoint_rejects_its_own_connection_before_approval() {
    let identity = [3u8; TCP_ENDPOINT_IDENTITY_SIZE];
    let sent = request("self");

    let message = encode_tcp_request_message(&identity, &sent).expect("request should encode");
    let (peer_identity, received) = host_reads_request(&message);
    let disposition = tcp_request_disposition(&peer_identity, &identity, &received, LOCAL_MAJOR);

    assert_eq!(disposition, RequestDisposition::RejectSelfConnection);
    let reply = disposition.immediate_reply().expect("a self-connection is answered at once");
    let reply_bytes = encode_connection_reply(&reply).expect("reply should encode");
    let outcome = handshake_outcome(requester_reads_reply(&reply_bytes), sent.protocol_major, sent.protocol_minor);

    assert!(matches!(outcome, HandshakeOutcome::SelfConnection));
}

#[test]
fn request_with_another_major_version_is_refused() {
    let mut sent = request("old peer");
    sent.protocol_major = LOCAL_MAJOR + 1;

    assert_eq!(quic_request_disposition(&sent, LOCAL_MAJOR), RequestDisposition::RejectProtocolMismatch);
    assert_eq!(
        tcp_request_disposition(&[1; 16], &[2; 16], &sent, LOCAL_MAJOR),
        RequestDisposition::RejectProtocolMismatch
    );
    assert_eq!(quic_request_disposition(&request("peer"), LOCAL_MAJOR), RequestDisposition::AwaitApproval);
    assert_eq!(
        handshake_outcome(ConnectionHandshakeReply::ProtocolMismatch, 4, 5),
        HandshakeOutcome::ProtocolMismatch { peer_major: 4, peer_minor: 5 }
    );
    assert_eq!(handshake_outcome(ConnectionHandshakeReply::Rejected, 4, 5), HandshakeOutcome::Rejected);
}

#[test]
fn capabilities_round_trip_with_the_absolute_pointer_tag() {
    let caps = capabilities(3, true);
    let encoded = encode_peer_capabilities(&caps).expect("capabilities should encode");
    assert_eq!(encoded.as_ref(), &[3, 3, 1, 2, CAPABILITY_TAG_ABSOLUTE_POINTER]);

    let (decoded, rest) = decode_peer_capabilities(Bytes::from(encoded.to_vec())).expect("capabilities should decode");
    assert_eq!(decoded, caps);
    assert!(rest.is_empty());
}

#[test]
fn request_body_round_trips() {
    let sent = request("laptop");
    let body = encode_connection_request_body(&sent).expect("request should encode");
    assert_eq!(&body[..4], &[0, 1, 0, 3]);
    assert_eq!(decode_connection_request_body(body).expect("request should decode"), sent);
}

#[test]
fn replies_round_trip() {
    for reply in [
        ConnectionHandshakeReply::Accepted { host_capabilities: capabilities(2, true) },
        ConnectionHandshakeReply::Rejected,
        ConnectionHandshakeReply::SelfConnection,
        ConnectionHandshakeReply::ProtocolMismatch,
    ] {
        let bytes = encode_connection_reply(&reply).expect("reply should encode");
        assert_eq!(decode_connection_reply(bytes).expect("reply should decode"), reply);
    }
    assert_eq!(
        encode_connection_reply(&ConnectionHandshakeReply::SelfConnection).unwrap().as_ref(),
        &[2]
    );
}

#[test]
fn malformed_messages_are_rejected() {
    let mut preface = [0u8; 21];
    preface[..5].copy_from_slice(b"RBTC\x01");
    assert_eq!(parse_tcp_request_preface(&preface), Err(HandshakeCodecError::InvalidTcpPreface));

    assert_eq!(tcp_response_status(9), Err(HandshakeCodecError::UnknownResponseStatus { status: 9 }));
    assert_eq!(decode_connection_reply(Bytes::new()), Err(HandshakeCodecError::ResponseEmpty));
    assert_eq!(
        decode_connection_reply(Bytes::from_static(&[0, 1, 0, 9])),
        Err(HandshakeCodecError::TrailingResponseBytes { count: 1 })
    );
    assert_eq!(capability_tag_count(&[1, 17]), Err(HandshakeCodecError::CapabilityTagCountExceeded { count: 17 }));
    assert_eq!(
        tcp_requester_name_length(&[0x02, 0x01], 0),
        Err(HandshakeCodecError::RequesterNameLengthExceeded { len: 513 })
    );

    let too_many = PeerCapabilities {
        max_screens: 1,
        encoder_profiles: (0..17).map(EncoderProfileTag).collect(),
        absolute_pointer: false,
    };
    assert_eq!(encode_peer_capabilities(&too_many), Err(HandshakeCodecError::TooManyCapabilityTags));

    let long_name = request(&"x".repeat(513));
    assert_eq!(
        encode_connection_request_body(&long_name),
        Err(HandshakeCodecError::RequesterNameTooLong { len: 513 })
    );
}
