use veddb_client::{Document, DocumentId, ObjectId};

#[test]
fn object_id_layout() {
    let mut random = [0u8; 16];
    for (i, b) in random.iter_mut().enumerate() {
        *b = 0xA0 + i as u8;
    }
    let oid = ObjectId::from_parts(0x01020304, &random, 0xAABBCCDD);
    assert_eq!(oid.as_bytes(), &[1, 2, 3, 4, 0xA0, 0xA1, 0xA2, 0xA3, 0xA4, 0xBB, 0xCC, 0xDD]);
    assert_eq!(oid.timestamp(), 0x01020304);
}

#[test]
fn new_object_id_carries_the_current_time() {
    let before = std::time::SystemTime::now()
        .duration_since(std::time::UNIX_EPOCH)
        .unwrap()
        .as_secs() as i64;
    let oid = ObjectId::new();
    let after = std::time::SystemTime::now()
        .duration_since(std::time::UNIX_EPOCH)
        .unwrap()
        .as_secs() as i64;
    assert!(oid.timestamp() >= before && oid.timestamp() <= after);
}

#[test]
fn new_document_ids_are_random_version_four() {
    let a = DocumentId::new();
    let b = DocumentId::new();
    assert_ne!(a, b);
    let bytes = a.to_bytes();
    assert_eq!(bytes[6] >> 4, 4);
    assert_eq!(bytes[8] >> 6, 2);
    assert_ne!(Document::new().id, Document::new().id);
}

#[test]
fn document_keeps_the_first_field_of_a_name_updated() {
    let mut doc = Document::with_id(DocumentId::from_bytes([7; 16]));
    doc.insert("a", 1i32.into());
    doc.insert("b", 2i32.into());
    doc.insert("a", 3i64.into());
    assert_eq!(doc.fields.len(), 2);
    assert_eq!(doc.get("a").unwrap().as_i64(), Some(3));
    assert_eq!(doc.get("b").unwrap().as_i64(), Some(2));
    assert!(doc.get("c").is_none());
    assert_eq!(doc.id.to_bytes(), [7; 16]);
}
