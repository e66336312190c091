use veddb_client::facade::{
    collection_names, document_objects, index_values, parse_key_list, server_info_fields,
    user_from_value, users_from_data,
};
use veddb_client::{
    Command, Error, Field, HashOpRequest, HashOperation, ListOpRequest, ListOperation, OpCode,
    OperationResponse, SetOpRequest, SetOperation, SortedSetOpRequest, SortedSetOperation, Value,
};

fn field(name: &str, value: Value) -> Field {
    Field { name: name.to_string(), value }
}

#[test]
fn list_operations_map_to_opcodes() {
    let req = |operation| ListOpRequest { key: "l".to_string(), operation };
    assert_eq!(req(ListOperation::Push { values: vec![], left: true }).opcode(), OpCode::LPush);
    assert_eq!(req(ListOperation::Push { values: vec![], left: false }).opcode(), OpCode::RPush);
    assert_eq!(req(ListOperation::Pop { left: true }).opcode(), OpCode::LPop);
    assert_eq!(req(ListOperation::Pop { left: false }).opcode(), OpCode::RPop);
    assert_eq!(req(ListOperation::Range { start: 0, stop: -1 }).opcode(), OpCode::LRange);
    assert_eq!(req(ListOperation::Len).opcode(), OpCode::LLen);
}

#[test]
fn set_sorted_set_and_hash_operations_map_to_opcodes() {
    let s = SetOpRequest { key: "s".to_string(), operation: SetOperation::Diff { other_keys: vec![] } };
    assert_eq!(s.opcode().as_byte(), 0x2D);
    let s = SetOpRequest { key: "s".to_string(), operation: SetOperation::Card };
    assert_eq!(s.opcode(), OpCode::SCard);
    let z = SortedSetOpRequest {
        key: "z".to_string(),
        operation: SortedSetOperation::RangeByScore { min: 0, max: 1.5f64.to_bits() },
    };
    assert_eq!(z.opcode().as_byte(), 0x31);
    let h = HashOpRequest {
        key: "h".to_string(),
        operation: HashOperation::SetField { field: "f".to_string(), value: Value::Null },
    };
    assert_eq!(h.opcode(), OpCode::HSet);
    let h = HashOpRequest { key: "h".to_string(), operation: HashOperation::Len };
    assert_eq!(h.opcode().as_byte(), 0x3A);
}

#[test]
fn structured_command_carries_payload_as_value() {
    let cmd = Command::with_payload(OpCode::Query, 3, b"{}");
    assert_eq!(cmd.header.opcode, 0x12);
    assert_eq!(cmd.header.key_len, 0);
    assert_eq!(cmd.header.value_len, 2);
    let cmd = Command::channel(OpCode::Publish, 4, b"news", b"hi");
    assert_eq!(cmd.key, b"news".to_vec());
    assert_eq!(cmd.value, b"hi".to_vec());
}

#[test]
fn envelope_success_and_failure() {
    let ok = OperationResponse::success(Some(Value::Int64(3)));
    assert!(matches!(ok.into_value("failed"), Ok(Value::Int64(3))));
    assert!(matches!(OperationResponse::success(None).into_value("failed"), Ok(Value::Null)));
    let err = OperationResponse::error("boom".to_string());
    assert_eq!(err.into_unit("failed").unwrap_err(), Error::Server("boom".to_string()));
    let bare = OperationResponse { success: false, data: None, error: None, affected_count: None };
    assert_eq!(bare.into_data("Query failed").unwrap_err(), Error::Server("Query failed".to_string()));
    let counted = OperationResponse { success: true, data: None, error: None, affected_count: Some(4) };
    assert_eq!(counted.into_affected("x").unwrap(), 4);
    assert_eq!(OperationResponse::success(None).into_affected("x").unwrap(), 0);
}

#[test]
fn collection_names_keep_strings_in_order() {
    let data = Some(Value::Array(vec![
        Value::String("a".to_string()),
        Value::Int32(1),
        Value::String("b".to_string()),
    ]));
    assert_eq!(collection_names(&data), vec!["a".to_string(), "b".to_string()]);
    assert!(collection_names(&Some(Value::Null)).is_empty());
    assert!(collection_names(&None).is_empty());
}

#[test]
fn query_keeps_only_objects() {
    let data = Some(Value::Array(vec![
        Value::Object(vec![field("x", Value::Int32(1))]),
        Value::Bool(true),
        Value::Object(vec![]),
    ]));
    let objs = document_objects(data);
    assert_eq!(objs.len(), 2);
    assert!(matches!(&objs[0], Value::Object(f) if f.len() == 1));
    assert!(document_objects(None).is_empty());
    assert_eq!(index_values(Some(Value::Array(vec![Value::Null, Value::Null]))).len(), 2);
    assert!(index_values(Some(Value::Int32(0))).is_empty());
}

#[test]
fn users_are_read_with_defaults() {
    let full = Value::Object(vec![
        field("username", Value::String("ann".to_string())),
        field("role", Value::String("admin".to_string())),
        field("created_at", Value::String("2024".to_string())),
        field("last_login", Value::String("yesterday".to_string())),
        field("enabled", Value::Bool(true)),
    ]);
    let u = user_from_value(&full).unwrap();
    assert_eq!(u.username, "ann");
    assert_eq!(u.role, "admin");
    assert_eq!(u.last_login.as_deref(), Some("yesterday"));
    assert!(u.enabled);
    let bare = Value::Object(vec![field("username", Value::String("bob".to_string()))]);
    let u = user_from_value(&bare).unwrap();
    assert_eq!(u.role, "unknown");
    assert_eq!(u.created_at, "");
    assert_eq!(u.last_login, None);
    assert!(!u.enabled);
    assert!(user_from_value(&Value::Object(vec![])).is_none());

    let users = users_from_data(&Some(Value::Array(vec![full, Value::Null, bare]))).unwrap();
    assert_eq!(users.len(), 2);
    assert_eq!(users[1].username, "bob");
    assert_eq!(users_from_data(&None).unwrap_err(), Error::Server("No data in response".to_string()));
    assert_eq!(
        users_from_data(&Some(Value::Null)).unwrap_err(),
        Error::Server("Expected array data".to_string())
    );
}

#[test]
fn key_list_lines() {
    assert_eq!(parse_key_list(b"a\nbb\r\n\n\r\nc"), vec!["a", "bb", "c"]);
    assert!(parse_key_list(b"").is_empty());
    assert_eq!(parse_key_list(b"k\xFF\n"), vec!["k\u{FFFD}"]);
    assert_eq!(parse_key_list(b"a\r"), vec!["a\r"]);
}

#[test]
fn server_info_reads_integers_and_version_with_defaults() {
    let data = Some(Value::Object(vec![
        field("uptime_seconds", Value::Int64(90)),
        field("connection_count", Value::Int32(3)),
        field("memory_usage_bytes", Value::String("big".to_string())),
        field("version", Value::String("0.2.0".to_string())),
    ]));
    let info = server_info_fields(&data).unwrap();
    assert_eq!(info.uptime_seconds, 90);
    assert_eq!(info.connection_count, 3);
    assert_eq!(info.total_collections, 0);
    assert_eq!(info.memory_usage_bytes, 0);
    assert_eq!(info.version, "0.2.0");
    let bare = server_info_fields(&Some(Value::Object(vec![]))).unwrap();
    assert_eq!(bare.version, "unknown");
    assert_eq!(server_info_fields(&None).unwrap_err(), Error::Server("No data in response".to_string()));
    assert_eq!(
        server_info_fields(&Some(Value::Array(vec![]))).unwrap_err(),
        Error::Server("Expected object data".to_string())
    );
}

#[test]
fn document_field_names_stay_unique() {
    let mut doc = veddb_client::Document::new();
    doc.insert("x", Value::Int32(1));
    doc.insert("y", Value::Int32(2));
    doc.insert("x", Value::Int32(3));
    let names: Vec<&str> = doc.fields.iter().map(|f| f.name.as_str()).collect();
    assert_eq!(names, vec!["x", "y"]);
}
