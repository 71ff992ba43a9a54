use aerolithdb::json::{JsonNumber, JsonValue};
use aerolithdb::stats::{OutputFormat, StatsRow, ValueStyle, focus_categories, stats_csv_rows, stats_format, stats_table_rows};

fn obj(members: Vec<(&str, JsonValue)>) -> JsonValue {
    JsonValue::Object(members.into_iter().map(|(k, v)| (k.to_string(), v)).collect())
}

fn n(x: u64) -> JsonValue {
    JsonValue::Number(JsonNumber::PosInt(x))
}

#[test]
fn stats_format_choice() {
    assert_eq!(stats_format("table"), (OutputFormat::Table, true));
    assert_eq!(stats_format("prometheus"), (OutputFormat::Prometheus, true));
    assert_eq!(stats_format("jsonl"), (OutputFormat::Json, false));
}

#[test]
fn csv_rows_flatten_nested_statistics() {
    let stats = obj(vec![
        ("a", obj(vec![("b", n(1)), ("c", JsonValue::Str("x".to_string())), ("d", JsonValue::Bool(true))])),
        ("e", JsonValue::Number(JsonNumber::NegInt(-7))),
        ("f", JsonValue::Number(JsonNumber::Float("2.5".to_string()))),
    ]);
    assert_eq!(stats_csv_rows(&stats), vec!["a.b,1,general,", "a.c,x,general,", "e,-7,general,", "f,2.5,general,"]);
}

#[test]
fn table_sections_in_order() {
    let stats = obj(vec![
        ("collections", obj(vec![("users", obj(vec![("docs", n(3))]))])),
        ("extra", n(9)),
        ("performance", obj(vec![("avg_query_time_ms", n(2)), ("cache_hit_rate", n(1)), ("qps", n(5)), ("other", n(1))])),
        ("storage", obj(vec![("total_docs", n(10))])),
        ("system", obj(vec![("memory_usage", n(100)), ("cpu_percent", n(50))])),
    ]);
    let rows = stats_table_rows(&stats, false);
    let headings: Vec<String> = rows
        .iter()
        .filter_map(|r| match r {
            StatsRow::Heading(h) => Some(h.clone()),
            _ => None,
        })
        .collect();
    assert_eq!(headings, vec!["📁 Storage:", "⚡ Performance:", "🔧 System Health:", "📊 Extra:"]);
    let styles: Vec<ValueStyle> = rows
        .iter()
        .filter_map(|r| match r {
            StatsRow::Entry { style, .. } => Some(*style),
            _ => None,
        })
        .collect();
    assert_eq!(
        styles,
        vec![
            ValueStyle::Units,
            ValueStyle::Duration,
            ValueStyle::Ratio,
            ValueStyle::Throughput,
            ValueStyle::Units,
            ValueStyle::Bytes,
            ValueStyle::Percent,
        ]
    );
    let detailed = stats_table_rows(&stats, true);
    assert!(detailed.iter().any(|r| matches!(r, StatsRow::Collection(c) if c == "users")));
    assert!(detailed.iter().any(|r| matches!(r, StatsRow::Heading(h) if h == "📚 Collections:")));
}

#[test]
fn non_object_statistics_fall_back() {
    let rows = stats_table_rows(&n(4), true);
    assert_eq!(rows.len(), 1);
    assert!(matches!(rows[0], StatsRow::Fallback(_)));
}

#[test]
fn plain_table_ignores_collections() {
    let with = obj(vec![
        ("storage", obj(vec![("total_docs", n(10))])),
        ("collections", obj(vec![("users", obj(vec![("docs", n(3))]))])),
        ("extra", n(9)),
    ]);
    let without = obj(vec![("storage", obj(vec![("total_docs", n(10))])), ("extra", n(9))]);
    assert_eq!(format!("{:?}", stats_table_rows(&with, false)), format!("{:?}", stats_table_rows(&without, false)));
    let detailed = stats_table_rows(&with, true);
    assert!(detailed.iter().any(|r| matches!(r, StatsRow::Heading(h) if h == "📚 Collections:")));
    let detailed_without = stats_table_rows(&without, true);
    assert!(!detailed_without.iter().any(|r| matches!(r, StatsRow::Heading(h) if h == "📚 Collections:")));
}

#[test]
fn category_focus_one_or_several() {
    let stats = obj(vec![
        ("storage", obj(vec![("total_docs", n(10))])),
        ("performance", obj(vec![("qps", n(5))])),
    ]);
    let one = focus_categories(&stats, "storage").unwrap();
    assert_eq!(format!("{:?}", one), format!("{:?}", obj(vec![("total_docs", n(10))])));
    let two = focus_categories(&stats, "performance,storage").unwrap();
    assert_eq!(
        format!("{:?}", two),
        format!(
            "{:?}",
            obj(vec![("performance", obj(vec![("qps", n(5))])), ("storage", obj(vec![("total_docs", n(10))]))])
        )
    );
    assert_eq!(focus_categories(&stats, "memory").unwrap_err(), "memory");
    assert_eq!(focus_categories(&stats, "storage,network,memory").unwrap_err(), "network");
}
