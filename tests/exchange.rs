use veddb_client::{
    Command, Error, Exchange, OpCode, ProtocolError, Response, ResponseHeader, SequenceCounter,
    StatusCode, MAX_FRAME_SIZE, PROTOCOL_V1, PROTOCOL_V2,
};

#[test]
fn begin_stamps_the_declared_version() {
    let cmd = Command::get(9, b"k");
    let (ex, bytes) = Exchange::begin(cmd, PROTOCOL_V1);
    assert_eq!(ex.seq, 9);
    assert_eq!(bytes[2], PROTOCOL_V1);
    assert_eq!(ex.header_len(), 20);
    let (ex2, _) = Exchange::begin(Command::ping(1), PROTOCOL_V2);
    assert_eq!(ex2.header_len(), 16);
}

#[test]
fn oversized_payload_is_refused_before_reading_it() {
    let ex = Exchange { seq: 1, version: PROTOCOL_V2 };
    let mut header = vec![0u8; 16];
    header[8..12].copy_from_slice(&((MAX_FRAME_SIZE as u32) + 1).to_le_bytes());
    assert_eq!(
        ex.payload_len(&header),
        Err(Error::Frame(ProtocolError::MessageTooLarge(MAX_FRAME_SIZE + 1)))
    );
    header[8..12].copy_from_slice(&(MAX_FRAME_SIZE as u32).to_le_bytes());
    assert_eq!(ex.payload_len(&header), Ok(MAX_FRAME_SIZE));
}

#[test]
fn sequence_mismatch_whatever_the_status() {
    let ex = Exchange { seq: 5, version: PROTOCOL_V2 };
    for status in [StatusCode::Success, StatusCode::NotFound, StatusCode::AuthRequired] {
        let resp = Response::new(ResponseHeader::new(status, 6), b"data");
        assert_eq!(
            ex.finish(&resp.to_bytes(PROTOCOL_V2)).unwrap_err(),
            Error::SequenceMismatch { expected: 5, got: 6 }
        );
    }
}

#[test]
fn status_error_carries_payload_text() {
    let ex = Exchange { seq: 5, version: PROTOCOL_V2 };
    let resp = Response::new(ResponseHeader::new(StatusCode::NotFound, 5), b"no such key");
    let err = ex.finish(&resp.to_bytes(PROTOCOL_V2)).unwrap_err();
    assert_eq!(err, Error::Status(StatusCode::NotFound, "no such key".to_string()));
    assert!(!err.is_connection_fatal());
}

#[test]
fn status_error_text_is_lossy_utf8() {
    let ex = Exchange { seq: 1, version: PROTOCOL_V2 };
    let resp = Response::new(ResponseHeader::new(StatusCode::Error, 1), &[b'a', 0xFF, b'b']);
    let err = ex.finish(&resp.to_bytes(PROTOCOL_V2)).unwrap_err();
    assert_eq!(err, Error::Status(StatusCode::Error, "a\u{FFFD}b".to_string()));
}

#[test]
fn auth_required_is_its_own_retryable_error() {
    let ex = Exchange { seq: 2, version: PROTOCOL_V2 };
    let resp = Response::new(ResponseHeader::new(StatusCode::AuthRequired, 2), b"login");
    let err = ex.finish(&resp.to_bytes(PROTOCOL_V2)).unwrap_err();
    assert_eq!(err, Error::AuthRequired("login".to_string()));
    assert!(err.is_retryable());
}

#[test]
fn malformed_frame_is_fatal_to_the_connection() {
    let ex = Exchange { seq: 2, version: PROTOCOL_V2 };
    let err = ex.finish(&[0u8; 4]).unwrap_err();
    assert_eq!(err, Error::Frame(ProtocolError::TooShort(4)));
    assert!(err.is_connection_fatal());
    assert!(Error::SequenceMismatch { expected: 1, got: 2 }.is_connection_fatal());
}

#[test]
fn successful_exchange_returns_the_response() {
    let ex = Exchange { seq: 8, version: PROTOCOL_V1 };
    let resp = Response::ok(8, b"value");
    let out = ex.finish(&resp.to_bytes(PROTOCOL_V1)).unwrap();
    assert_eq!(out.payload, b"value".to_vec());
    assert_eq!(out.header.seq, 8);
}

#[test]
fn sequence_numbers_start_at_one_and_wrap() {
    let mut c = SequenceCounter::new();
    assert_eq!(c.next_seq(), 1);
    assert_eq!(c.next_seq(), 2);
    for _ in 0..10 {
        c.next_seq();
    }
    assert_eq!(c.next_seq(), 13);
    let _ = OpCode::Ping;
}

#[test]
fn error_constructors_keep_message() {
    assert_eq!(Error::connection("c"), Error::Connection("c".to_string()));
    assert_eq!(Error::protocol("p"), Error::Protocol("p".to_string()));
    assert_eq!(Error::server("s"), Error::Server("s".to_string()));
    assert_eq!(Error::invalid_argument("a"), Error::InvalidArgument("a".to_string()));
    assert_eq!(Error::invalid_response("r"), Error::InvalidResponse("r".to_string()));
    assert_eq!(Error::other("o"), Error::Other("o".to_string()));
}
