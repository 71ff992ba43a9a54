use aerolithdb::json::{JsonNumber, JsonValue, insert_member, no_members, object, text, uint};
use aerolithdb::rest_api::{RestError, database_stats, result_document_id, storage_failure};

#[test]
fn storage_failures() {
    assert_eq!(storage_failure("Document not found: users/1"), RestError::NotFound);
    assert_eq!(storage_failure("disk full"), RestError::Internal);
}

#[test]
fn result_identifiers() {
    let mut m = no_members();
    insert_member(&mut m, "id".to_string(), text("u-7"));
    assert_eq!(result_document_id(&object(m), 3), "u-7");
    let mut m = no_members();
    insert_member(&mut m, "id".to_string(), uint(7));
    assert_eq!(result_document_id(&object(m), 3), "doc_3");
    assert_eq!(result_document_id(&JsonValue::Null, 12), "doc_12");
}

#[test]
fn engine_stats_override_base() {
    let mut m = no_members();
    insert_member(&mut m, "cluster".to_string(), text("solo"));
    insert_member(&mut m, "queries".to_string(), uint(5));
    let stats = database_stats(&object(m));
    assert!(matches!(stats.get("cluster"), Some(JsonValue::Str(s)) if s == "solo"));
    assert!(matches!(stats.get("queries"), Some(JsonValue::Number(JsonNumber::PosInt(5)))));
    let storage = stats.get("storage").unwrap();
    assert!(matches!(storage.get("total_documents"), Some(JsonValue::Number(JsonNumber::PosInt(12345)))));
    assert!(matches!(storage.get("compression_ratio"), Some(JsonValue::Number(JsonNumber::Float(s))) if s == "2.4"));
    let plain = database_stats(&JsonValue::Null);
    assert!(matches!(plain.get("cluster").unwrap().get("node_count"), Some(JsonValue::Number(JsonNumber::PosInt(3)))));
    assert!(matches!(plain.get("database").unwrap().get("name"), Some(JsonValue::Str(s)) if s == "aerolithsDB"));
}
