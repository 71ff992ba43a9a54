use aerolithdb::graphql_api::{collections, database_info, document, documents};

#[test]
fn graphql_resolvers() {
    let info = database_info();
    assert_eq!(info.name, "aerolithsDB");
    assert_eq!(info.uptime, "Production Ready");
    assert!(info.collections.is_empty());
    let d = document("users", "u1", Some("{\"a\":1}".to_string())).unwrap();
    assert_eq!(d.id, "u1");
    assert_eq!(d.collection, "users");
    assert_eq!(d.data, "{\"a\":1}");
    assert_eq!(d.version, 1);
    assert_eq!(d.created_at, "N/A");
    assert!(document("users", "u2", None).is_none());
    let ds = documents("users", vec!["{}".to_string(), "[]".to_string()]);
    assert_eq!(ds.len(), 2);
    assert_eq!(ds[0].id, "doc_0");
    assert_eq!(ds[1].id, "doc_1");
    assert_eq!(ds[1].data, "[]");
    let cs = collections();
    assert_eq!(cs.len(), 1);
    assert_eq!(cs[0].name, "example");
}
