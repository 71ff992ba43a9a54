use aerolithdb::glob::glob_matches;
use aerolithdb::args::{AnalyticsArgs, OptimizeArgs, QueryArgs};
use aerolithdb::documents::{GetFormat, deletion_kind, document_body, get_format};
use aerolithdb::json::{JsonInputError, JsonNumber, JsonValue};
use aerolithdb::listing::{
    field_sort_value, parse_sort_input,
    ClientConfig, Collection, classify_failure, document_url, documents_url, filter_collections, list_format, query_body,
    query_format, query_url, remaining_results,
};
use aerolithdb::reports::{OptimizationKind, OptimizeMode, ReportKind, plan_analytics, plan_optimize};
use aerolithdb::stats::OutputFormat;
use std::time::Duration;

fn coll(name: &str) -> Collection {
    Collection { name: name.to_string(), document_count: 1, size_bytes: 2, created_at: "t".to_string(), updated_at: None }
}

#[test]
fn formats_of_listing_commands() {
    assert_eq!(query_format("count"), (OutputFormat::Count, true));
    assert_eq!(query_format("yaml"), (OutputFormat::Json, false));
    assert_eq!(list_format("yaml"), (OutputFormat::Yaml, true));
    assert_eq!(list_format("count"), (OutputFormat::Json, false));
}

#[test]
fn query_body_members() {
    let args = QueryArgs { collection: "c".to_string(), filter: None, sort: None, limit: 10, offset: 3, include_metadata: true, format: "json".to_string(), explain: false };
    match query_body(&args, Some(JsonValue::Bool(true)), None) {
        JsonValue::Object(m) => {
            let keys: Vec<&str> = m.iter().map(|(k, _)| k.as_str()).collect();
            assert_eq!(keys, vec!["explain", "filter", "include_metadata", "limit", "offset", "sort"]);
            assert!(matches!(m[4].1, JsonValue::Number(JsonNumber::PosInt(3))));
            assert!(matches!(m[5].1, JsonValue::Null));
        }
        _ => panic!(),
    }
}

#[test]
fn pagination_remaining() {
    assert_eq!(remaining_results(100, 10, 0), Some(90));
    assert_eq!(remaining_results(100, 10, 95), Some(0));
    assert_eq!(remaining_results(10, 10, 0), None);
}

#[test]
fn collection_pattern() {
    let cs = vec![coll("user_profiles"), coll("user_sessions"), coll("orders")];
    let kept = filter_collections(cs, &Some("user_*".to_string()));
    assert_eq!(kept.iter().map(|c| c.name.as_str()).collect::<Vec<_>>(), vec!["user_profiles", "user_sessions"]);
    let logs = vec![coll("log_2023"), coll("log_2024"), coll("log_x"), coll("Log_2023")];
    let kept = filter_collections(logs, &Some("log_[0-9]*".to_string()));
    assert_eq!(kept.iter().map(|c| c.name.as_str()).collect::<Vec<_>>(), vec!["log_2023", "log_2024"]);
    let exact = filter_collections(vec![coll("users"), coll("user")], &Some("user".to_string()));
    assert_eq!(exact.iter().map(|c| c.name.as_str()).collect::<Vec<_>>(), vec!["user"]);
    let all = filter_collections(vec![coll("a")], &None);
    assert_eq!(all.len(), 1);
}

#[test]
fn glob_patterns() {
    assert!(glob_matches("a?c", "abc"));
    assert!(!glob_matches("a?c", "ac"));
    assert!(glob_matches("*", ""));
    assert!(glob_matches("[!0-9]x", "ax"));
    assert!(!glob_matches("[!0-9]x", "5x"));
    assert!(glob_matches("[abc]*z", "bqqz"));
    assert!(glob_matches("a[", "a["));
    assert!(!glob_matches("user_*", "USER_x"));
}

#[test]
fn failure_hints() {
    assert_eq!(classify_failure("query timeout at index", &["syntax", "timeout", "limit", "index"]), Some(1));
    assert_eq!(classify_failure("fine", &["syntax", "timeout"]), None);
}

#[test]
fn urls() {
    assert_eq!(document_url("http://h", "c", "d"), "http://h/api/v1/collections/c/documents/d");
    assert_eq!(query_url("http://h", "c"), "http://h/api/v1/collections/c/query");
    assert_eq!(documents_url("http://h", "c", None, None), "http://h/api/v1/collections/c/documents");
    assert_eq!(documents_url("http://h", "c", Some(5), Some(10)), "http://h/api/v1/collections/c/documents?limit=5&offset=10");
    assert_eq!(documents_url("http://h", "c", None, Some(7)), "http://h/api/v1/collections/c/documents?offset=7");
}

#[test]
fn report_plans() {
    let a = AnalyticsArgs { report_type: "index-usage".to_string(), time_range: "24h".to_string(), format: "report".to_string(), output_file: None, include_recommenaerolithons: true };
    let p = plan_analytics(&a);
    assert_eq!(p.kind, Some(ReportKind::IndexUsage));
    assert!(p.recommendations);
    let unknown = AnalyticsArgs { report_type: "x".to_string(), time_range: "24h".to_string(), format: "report".to_string(), output_file: Some("o".to_string()), include_recommenaerolithons: true };
    let p = plan_analytics(&unknown);
    assert_eq!(p.kind, None);
    assert!(!p.recommendations);
    assert!(!p.saves_report);
    let known = AnalyticsArgs { report_type: "index-usage".to_string(), time_range: "24h".to_string(), format: "report".to_string(), output_file: Some("o".to_string()), include_recommenaerolithons: false };
    assert!(plan_analytics(&known).saves_report);
    let o = OptimizeArgs { collection: None, optimization_type: "indexes".to_string(), auto_apply: true, dry_run: true, detailed: true };
    let p = plan_optimize(&o);
    assert_eq!(p.kind, Some(OptimizationKind::Indexes));
    assert_eq!(p.mode, OptimizeMode::DryRun);
    assert!(p.index_impact);
    assert!(!p.detailed_notes);
    assert!(!p.next_steps);
    let o = OptimizeArgs { collection: Some("c".to_string()), optimization_type: "full".to_string(), auto_apply: false, dry_run: false, detailed: true };
    let p = plan_optimize(&o);
    assert!(p.detailed_notes && p.next_steps);
}

#[test]
fn document_helpers() {
    assert_eq!(get_format("pretty"), GetFormat::Pretty);
    assert_eq!(get_format("table"), GetFormat::Detailed);
    assert_eq!(deletion_kind(true), "Soft deletion (recoverable)");
    match document_body(JsonValue::Null, &None, None, None) {
        JsonValue::Object(m) => {
            assert_eq!(m.len(), 1);
            assert_eq!(m[0].0, "data");
        }
        _ => panic!(),
    }
    match document_body(JsonValue::Null, &Some("aes256".to_string()), Some(3), Some(30)) {
        JsonValue::Object(m) => {
            let keys: Vec<&str> = m.iter().map(|(k, _)| k.as_str()).collect();
            assert_eq!(keys, vec!["data", "encryption_policy", "replication_factor", "retention_days"]);
            assert!(matches!(&m[1].1, JsonValue::Str(p) if p == "aes256"));
            assert!(matches!(&m[2].1, JsonValue::Number(JsonNumber::PosInt(3))));
            assert!(matches!(&m[3].1, JsonValue::Number(JsonNumber::PosInt(30))));
        }
        _ => panic!(),
    }
}

#[test]
fn test_client_config_default_timeout() {
    let c = ClientConfig::new("http://localhost:8080".to_string(), None);
    assert_eq!(c.base_url, "http://localhost:8080");
    assert_eq!(c.timeout, Duration::from_secs(30));
}

#[test]
fn test_client_config_custom_timeout() {
    let c = ClientConfig::new("https://api.example.com".to_string(), Some(Duration::from_secs(60)));
    assert_eq!(c.base_url, "https://api.example.com");
    assert_eq!(c.timeout, Duration::from_secs(60));
}

#[test]
fn sort_field_direction_form() {
    let one = field_sort_value("created_at:desc").unwrap();
    assert!(matches!(one.get("created_at"), Some(JsonValue::Number(JsonNumber::NegInt(-1)))));
    let two = field_sort_value("priority:desc,created_at:asc").unwrap();
    assert!(matches!(two.get("priority"), Some(JsonValue::Number(JsonNumber::NegInt(-1)))));
    assert!(matches!(two.get("created_at"), Some(JsonValue::Number(JsonNumber::PosInt(1)))));
    let nested = field_sort_value("user.profile.score:desc").unwrap();
    assert!(matches!(nested.get("user.profile.score"), Some(JsonValue::Number(JsonNumber::NegInt(-1)))));
    assert!(field_sort_value("created_at").is_none());
    assert!(field_sort_value("created_at:up").is_none());
    assert!(field_sort_value(":desc").is_none());
    assert!(field_sort_value("a:asc,").is_none());
}

#[test]
fn sort_input_falls_back_to_json() {
    let v = parse_sort_input("created_at:desc", None).unwrap();
    assert!(matches!(v.get("created_at"), Some(JsonValue::Number(JsonNumber::NegInt(-1)))));
    let j = parse_sort_input("{\"name\": 1, \"age\": -1}", None).unwrap();
    assert!(matches!(j.get("age"), Some(JsonValue::Number(JsonNumber::NegInt(-1)))));
    assert_eq!(parse_sort_input("name:sideways", None).err(), Some(JsonInputError::InvalidJson));
    assert_eq!(parse_sort_input("@missing.json", None).err(), Some(JsonInputError::FileNotFound));
}
