use aerolithdb::json::{JsonValue, insert_member, no_members, object, text};
use aerolithdb::tui_classic::{
    ConfigType, LogEntry, LogLevel, MAX_LOG_ENTRIES, Tab, TestType, error_log_entry, initial_config_files,
    initial_test_suites, push_log,
};

fn entry(n: i64) -> LogEntry {
    LogEntry { timestamp_ms: n, level: LogLevel::Info, source: "s".to_string(), message: n.to_string(), metadata: vec![] }
}

#[test]
fn log_keeps_at_most_the_limit_and_newest_last() {
    let mut logs = Vec::new();
    for i in 0..(MAX_LOG_ENTRIES as i64 + 5) {
        push_log(&mut logs, entry(i));
    }
    assert_eq!(logs.len(), MAX_LOG_ENTRIES);
    assert_eq!(logs.last().unwrap().timestamp_ms, MAX_LOG_ENTRIES as i64 + 4);
    assert_eq!(logs[0].timestamp_ms, 5);
}

#[test]
fn error_entry_fields() {
    let e = error_log_entry("boom".to_string(), 42);
    assert_eq!(e.timestamp_ms, 42);
    assert_eq!(e.level, LogLevel::Error);
    assert_eq!(e.source, "TUI");
    assert_eq!(e.message, "boom");
    assert!(e.metadata.is_empty());
}

#[test]
fn log_level_order() {
    assert!(LogLevel::Error.is_at_least(LogLevel::Warn));
    assert!(LogLevel::Info.is_at_least(LogLevel::Info));
    assert!(!LogLevel::Debug.is_at_least(LogLevel::Info));
    assert_eq!(LogLevel::default(), LogLevel::Info);
}

#[test]
fn builtin_suites_and_config_files() {
    let suites = initial_test_suites();
    assert_eq!(suites.len(), 6);
    assert_eq!(suites[0].name, "Unit Tests");
    assert_eq!(suites[0].estimated_duration_secs, 30);
    assert_eq!(suites[2].test_type, TestType::BattleTest);
    assert_eq!(suites[4].requirements, vec!["Optimized build".to_string()]);
    let files = initial_config_files(7);
    assert_eq!(files.len(), 4);
    assert_eq!(files[3].name, "security.yaml");
    assert_eq!(files[3].path, "./config/security.yaml");
    assert_eq!(files[3].file_type, ConfigType::Security);
    assert!(!files[3].is_valid);
    assert!(files[0].is_valid);
    assert_eq!(files[1].last_modified_ms, 7);
}

#[test]
fn footer_help_of_tabs() {
    assert_eq!(Tab::Dashboard.footer_help(), "Space: Refresh | Tab: Next Tab | q: Quit");
    assert_eq!(Tab::Console.footer_help(), "c: Clear | f: Filter | /: Search | Tab: Next Tab | q: Quit");
}

#[test]
fn json_insert_reads_back_and_keeps_order() {
    let mut members = no_members();
    insert_member(&mut members, "b".to_string(), text("1"));
    insert_member(&mut members, "a".to_string(), text("2"));
    insert_member(&mut members, "c".to_string(), text("3"));
    insert_member(&mut members, "b".to_string(), text("4"));
    let keys: Vec<&str> = members.iter().map(|(k, _)| k.as_str()).collect();
    assert_eq!(keys, vec!["a", "b", "c"]);
    let obj = object(members);
    assert!(matches!(obj.get("b"), Some(JsonValue::Str(s)) if s == "4"));
    assert!(matches!(obj.get("a"), Some(JsonValue::Str(s)) if s == "2"));
    assert!(obj.get("z").is_none());
}
