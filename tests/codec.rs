use veddb_client::{
    Command, CommandHeader, OpCode, ProtocolError, Response, ResponseHeader, StatusCode,
    MAX_FRAME_SIZE, PROTOCOL_V1, PROTOCOL_V2,
};

fn response_frame(status: u8, seq: u32, payload_len: u32, payload: &[u8], legacy: bool) -> Vec<u8> {
    let mut b = vec![status, 0];
    b.extend_from_slice(&0u16.to_le_bytes());
    b.extend_from_slice(&seq.to_le_bytes());
    b.extend_from_slice(&payload_len.to_le_bytes());
    if legacy {
        b.extend_from_slice(&7u64.to_le_bytes());
    } else {
        b.extend_from_slice(&[0, 0, 0, 0]);
    }
    b.extend_from_slice(payload);
    b
}

#[test]
fn command_header_bytes_are_little_endian() {
    let cmd = Command::cas(0x01020304, b"k", 0x1122334455667788, b"vv");
    let b = cmd.to_bytes();
    assert_eq!(b.len(), 24 + 1 + 2);
    assert_eq!(b[0], 0x05);
    assert_eq!(&b[4..8], &[0x04, 0x03, 0x02, 0x01]);
    assert_eq!(&b[8..12], &[1, 0, 0, 0]);
    assert_eq!(&b[12..16], &[2, 0, 0, 0]);
    assert_eq!(&b[16..24], &[0x88, 0x77, 0x66, 0x55, 0x44, 0x33, 0x22, 0x11]);
    assert_eq!(&b[24..], b"kvv");
}

#[test]
fn command_round_trip_keeps_every_field() {
    let header = CommandHeader::new_v1(OpCode::Publish, 99)
        .with_flag(0x02)
        .with_flag(0x08)
        .with_extra(u64::MAX - 1);
    let cmd = Command::new(header, b"channel", b"message body");
    let back = Command::from_bytes(&cmd.to_bytes()).unwrap();
    assert_eq!(back.header, cmd.header);
    assert_eq!(back.header.flags, 0x0A);
    assert_eq!(back.key, b"channel".to_vec());
    assert_eq!(back.value, b"message body".to_vec());
}

#[test]
fn command_round_trip_empty_key_and_value() {
    let cmd = Command::ping(7);
    let back = Command::from_bytes(&cmd.to_bytes()).unwrap();
    assert_eq!(back.header, cmd.header);
    assert!(back.key.is_empty());
    assert!(back.value.is_empty());
}

#[test]
fn command_decode_errors() {
    assert_eq!(Command::from_bytes(&[0u8; 23]).unwrap_err(), ProtocolError::TooShort(23));
    let mut b = Command::set(1, b"key", b"value").to_bytes();
    b.pop();
    let n = b.len();
    assert_eq!(Command::from_bytes(&b).unwrap_err(), ProtocolError::Truncated(n));
}

#[test]
fn response_round_trip_current_layout() {
    let resp = Response::ok(42, b"payload");
    let bytes = resp.to_bytes(PROTOCOL_V2);
    assert_eq!(bytes.len(), 16 + 7);
    let back = Response::from_bytes(&bytes, PROTOCOL_V2).unwrap();
    assert_eq!(back.header, resp.header);
    assert_eq!(back.payload, b"payload".to_vec());
}

#[test]
fn response_round_trip_legacy_layout_keeps_extra() {
    let mut resp = Response::new(ResponseHeader::new(StatusCode::VersionMismatch, 5), b"x");
    resp.header.extra = 0xDEADBEEF;
    let bytes = resp.to_bytes(PROTOCOL_V1);
    assert_eq!(bytes.len(), 20 + 1);
    let back = Response::from_bytes(&bytes, PROTOCOL_V1).unwrap();
    assert_eq!(back.header, resp.header);
    assert_eq!(back.status(), StatusCode::VersionMismatch);
}

#[test]
fn response_current_layout_drops_extra() {
    let mut resp = Response::ok(3, b"");
    resp.header.extra = 9;
    let back = Response::from_bytes(&resp.to_bytes(PROTOCOL_V2), PROTOCOL_V2).unwrap();
    assert_eq!(back.header.extra, 0);
    assert_eq!(back.header.seq, 3);
}

#[test]
fn response_too_short() {
    let b = response_frame(0, 1, 0, b"", false);
    assert_eq!(Response::from_bytes(&b[..15], PROTOCOL_V2).unwrap_err(), ProtocolError::TooShort(15));
    assert_eq!(Response::from_bytes(&b, PROTOCOL_V1).unwrap_err(), ProtocolError::TooShort(16));
}

#[test]
fn response_invalid_status() {
    let b = response_frame(0x0E, 1, 0, b"", false);
    assert_eq!(Response::from_bytes(&b, PROTOCOL_V2).unwrap_err(), ProtocolError::InvalidStatusCode(0x0E));
}

#[test]
fn response_frame_too_large() {
    let b = response_frame(0, 1, (MAX_FRAME_SIZE + 1) as u32, b"", false);
    assert_eq!(
        Response::from_bytes(&b, PROTOCOL_V2).unwrap_err(),
        ProtocolError::MessageTooLarge(MAX_FRAME_SIZE + 1)
    );
}

#[test]
fn response_largest_frame_is_accepted() {
    let payload = vec![0xABu8; MAX_FRAME_SIZE];
    let resp = Response::ok(1, &payload);
    let back = Response::from_bytes(&resp.to_bytes(PROTOCOL_V2), PROTOCOL_V2).unwrap();
    assert_eq!(back.payload.len(), MAX_FRAME_SIZE);
}

#[test]
fn response_truncated() {
    let b = response_frame(0, 1, 10, b"short", false);
    assert_eq!(Response::from_bytes(&b, PROTOCOL_V2).unwrap_err(), ProtocolError::Truncated(21));
}

#[test]
fn status_of_unknown_byte_reads_as_error() {
    let mut resp = Response::ok(1, b"");
    resp.header.status = 0x40;
    assert_eq!(resp.status(), StatusCode::Error);
    assert!(!resp.is_ok());
    assert_eq!(Response::not_found(1).status(), StatusCode::NotFound);
    assert_eq!(Response::error(1).status(), StatusCode::Error);
}

#[test]
fn opcode_and_status_bytes() {
    assert_eq!(OpCode::from_byte(0x3E).unwrap(), OpCode::UpdateUserRole);
    assert_eq!(OpCode::from_byte(0x0B).unwrap_err(), ProtocolError::InvalidOpCode(0x0B));
    assert_eq!(OpCode::Info.as_byte(), 0x0A);
    assert_eq!(OpCode::Auth.as_byte(), 0x10);
    assert_eq!(StatusCode::from_byte(0x0D).unwrap(), StatusCode::IndexNotFound);
    assert_eq!(StatusCode::from_byte(0x0E).unwrap_err(), ProtocolError::InvalidStatusCode(0x0E));
}

#[test]
fn header_builders() {
    let h = CommandHeader::new(OpCode::Get, 5).with_lengths(3, 4);
    assert_eq!(h.total_payload_len(), 7);
    assert!(!h.has_flag(0x04));
    let h = h.with_flag(0x04);
    assert!(h.has_flag(0x04));
    assert!(!h.has_flag(0x01));
    assert_eq!(ResponseHeader::new(StatusCode::Full, 2).with_payload_len(9).payload_len, 9);
}
