use net_core::Message;
use net_core::NetError;

fn msg(command: &[u8], payload: &[u8]) -> Message {
    Message { command: command.to_vec(), payload: payload.to_vec() }
}

#[test]
fn encode_exact_bytes() {
    let m = msg(b"ver", &[7]);
    let bytes = net_core::encode_frame(&m, 100);
    // body = 1 (command length byte) + 3 (command) + 1 (payload) = 5
    assert_eq!(bytes, vec![5, 0, 0, 0, 3, b'v', b'e', b'r', 7]);
}

#[test]
fn round_trip_ping() {
    let m = msg(b"ping", &[1, 2, 3, 4]);
    let bytes = net_core::encode_frame(&m, 1000);
    let back = net_core::decode_frame(&bytes, 1000).unwrap();
    assert_eq!(back.command, m.command);
    assert_eq!(back.payload, m.payload);
}

#[test]
fn round_trip_empty_payload() {
    let m = msg(b"a", b"");
    let bytes = net_core::encode_frame(&m, 2);
    assert_eq!(bytes.len(), 6);
    let back = net_core::decode_frame(&bytes, 2).unwrap();
    assert_eq!(back.command, vec![b'a']);
    assert_eq!(back.payload, Vec::<u8>::new());
}

#[test]
fn round_trip_longest_command() {
    let m = msg(&[9u8; 255], &[0xAB; 100]);
    let bytes = net_core::encode_frame(&m, 1024);
    let back = net_core::decode_frame(&bytes, 1024).unwrap();
    assert_eq!(back.command, m.command);
    assert_eq!(back.payload, m.payload);
}

#[test]
fn oversized_declared_length_rejected_from_header_alone() {
    // Only the four header bytes exist: the declared body of 1000 exceeds the
    // bound, and the rejection needs no payload at all.
    let header = [0xE8u8, 0x03, 0, 0];
    let r = net_core::frame_body_len(&header, 100);
    assert_eq!(r, Err(NetError::ProtocolViolation));
}

#[test]
fn header_within_bound_accepted() {
    let header = [5u8, 0, 0, 0];
    assert_eq!(net_core::frame_body_len(&header, 100), Ok(5));
}

#[test]
fn oversized_frame_rejected_by_decode() {
    let m = msg(b"bulk", &[0u8; 64]);
    let bytes = net_core::encode_frame(&m, 1024);
    // The same frame under a smaller bound is a protocol violation.
    assert_eq!(net_core::decode_frame(&bytes, 16), Err(NetError::ProtocolViolation));
}

#[test]
fn truncated_buffer_rejected() {
    assert_eq!(net_core::decode_frame(&[5, 0, 0], 100), Err(NetError::ProtocolViolation));
    // Declared body of 5, but only part of it present.
    assert_eq!(net_core::decode_frame(&[5, 0, 0, 0, 1, b'x'], 100), Err(NetError::ProtocolViolation));
}

#[test]
fn trailing_bytes_rejected() {
    let m = msg(b"x", b"");
    let mut bytes = net_core::encode_frame(&m, 100);
    bytes.push(0);
    assert_eq!(net_core::decode_frame(&bytes, 100), Err(NetError::ProtocolViolation));
}

#[test]
fn empty_command_rejected() {
    // body = 2 declared, command length byte says 0.
    let bytes = [2u8, 0, 0, 0, 0, 9];
    assert_eq!(net_core::decode_frame(&bytes, 100), Err(NetError::ProtocolViolation));
}

#[test]
fn command_longer_than_body_rejected() {
    // body = 2, command claims 5 bytes.
    let bytes = [2u8, 0, 0, 0, 5, 9];
    assert_eq!(net_core::decode_frame(&bytes, 100), Err(NetError::ProtocolViolation));
}

#[test]
fn duplicate_preserves_bytes() {
    let m = msg(b"addr", &[1, 2]);
    let d = m.duplicate();
    assert_eq!(d.command, m.command);
    assert_eq!(d.payload, m.payload);
}

#[test]
fn error_names_and_fatality() {
    assert_eq!(NetError::ProtocolViolation.as_str(), "protocol violation");
    assert_eq!(NetError::ConnectionFailed.as_str(), "connection failed");
    assert_eq!(NetError::UnsupportedTransport.as_str(), "unsupported transport");
    assert_eq!(NetError::WriteError.as_str(), "write error");
    assert_eq!(NetError::ReadError.as_str(), "read error");
    assert_eq!(NetError::IncompatiblePeer.as_str(), "incompatible peer");
    assert_eq!(NetError::HandshakeTimeout.as_str(), "handshake timeout");
    assert_eq!(NetError::PingTimeout.as_str(), "ping timeout");
    assert_eq!(NetError::ChannelStopped.as_str(), "channel stopped");
    assert!(NetError::WriteError.is_channel_fatal());
    assert!(NetError::ReadError.is_channel_fatal());
    assert!(NetError::ProtocolViolation.is_channel_fatal());
    assert!(!NetError::IncompatiblePeer.is_channel_fatal());
    assert!(!NetError::PingTimeout.is_channel_fatal());
}
