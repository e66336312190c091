use veddb_client::{
    Command, CommandHeader, Document, DocumentId, ObjectId, OpCode, Response, StatusCode, Value,
    PROTOCOL_V1, PROTOCOL_V2,
};

#[test]
fn test_command_serialization() {
    let cmd = Command::set(1, b"key", b"value");
    let bytes = cmd.to_bytes();

    assert_eq!(bytes[0], OpCode::SetKey.as_byte()); // opcode
    assert_eq!(bytes[1], 0); // flags
    assert_eq!(bytes[2], PROTOCOL_V2); // version
    // Header is 24 bytes, then key, then value
    assert_eq!(&bytes[24..27], b"key");
    assert_eq!(&bytes[27..32], b"value");
}

#[test]
fn test_response_deserialization() {
    let mut buf: Vec<u8> = Vec::new();
    buf.push(StatusCode::Success.as_byte()); // status
    buf.push(0); // flags
    buf.extend_from_slice(&0u16.to_le_bytes()); // reserved
    buf.extend_from_slice(&42u32.to_le_bytes()); // seq
    buf.extend_from_slice(&5u32.to_le_bytes()); // payload_len
    buf.extend_from_slice(&0u64.to_le_bytes()); // extra
    buf.extend_from_slice(b"hello"); // payload

    // A 20-byte header: the legacy layout.
    let resp = Response::from_bytes(&buf, PROTOCOL_V1).unwrap();
    assert!(resp.is_ok());
    assert_eq!(resp.header.seq, 42);
    assert_eq!(&resp.payload[..], b"hello");
}

#[test]
fn test_document_creation() {
    let mut doc = Document::new();
    doc.insert("name", "Alice".into());
    doc.insert("age", 30i32.into());
    doc.insert("active", true.into());

    assert_eq!(doc.get("name").unwrap().as_str().unwrap(), "Alice");
    assert_eq!(doc.get("age").unwrap().as_i64().unwrap(), 30);
    assert_eq!(doc.get("active").unwrap().as_bool().unwrap(), true);
}

#[test]
fn test_value_conversions() {
    let val_bool: Value = true.into();
    assert!(matches!(val_bool, Value::Bool(true)));

    let val_str: Value = "hello".into();
    assert!(matches!(val_str, Value::String(ref s) if s == "hello"));

    let val_int: Value = 42i64.into();
    assert!(matches!(val_int, Value::Int64(42)));
}

#[test]
fn test_protocol_version() {
    let header = CommandHeader::new(OpCode::Ping, 1);
    assert_eq!(header.version, PROTOCOL_V2);

    let header_v1 = CommandHeader::new_v1(OpCode::Ping, 1);
    assert_eq!(header_v1.version, PROTOCOL_V1);
}

#[test]
fn test_object_id() {
    let oid = ObjectId::new();
    let bytes = oid.as_bytes();
    let oid2 = ObjectId::from_bytes(*bytes);
    assert_eq!(oid, oid2);
}

#[test]
fn test_document_id() {
    let doc_id = DocumentId::new();
    let bytes = doc_id.to_bytes();
    let doc_id2 = DocumentId::from_bytes(bytes);
    assert_eq!(doc_id, doc_id2);
}
