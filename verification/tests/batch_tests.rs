use aerolithdb::args::{BatchDeleteArgs, BatchImportArgs, BatchPutArgs};
use aerolithdb::batch_ops::{
    BatchError, BatchTally, CsvCell, DeletionSource, ExportFormat, ImportFormat, PutSource, apply_field_mapping,
    batch_ranges, confirms_deletion, deletion_plan, deletion_query, deletion_source, document_id, document_path, export_format,
    export_query, export_table, filter_document_fields, ids_from_lines, ids_from_query_result, import_format,
    parse_id_list, preview, put_args_for_import, put_source, import_from_csv, import_from_tsv, export_to_csv, export_to_tsv, reports_progress, text_documents,
};
use aerolithdb::json::{JsonNumber, JsonValue};

fn obj(members: Vec<(&str, JsonValue)>) -> JsonValue {
    JsonValue::Object(members.into_iter().map(|(k, v)| (k.to_string(), v)).collect())
}

fn s(x: &str) -> JsonValue {
    JsonValue::Str(x.to_string())
}

fn delete_args(ids: Option<&str>, file: Option<&str>, filter: Option<&str>) -> BatchDeleteArgs {
    BatchDeleteArgs {
        collection: "c".to_string(),
        ids: ids.map(|x| x.to_string()),
        file: file.map(|x| x.to_string()),
        filter: filter.map(|x| x.to_string()),
        force: false,
        dry_run: false,
        backup: false,
        batch_size: None,
        parallel: None,
        continue_on_error: false,
        verbose: false,
    }
}

#[test]
fn id_lists() {
    assert_eq!(parse_id_list(" a, b ,,c "), vec!["a", "b", "", "c"]);
    assert_eq!(parse_id_list(""), vec![""]);
    assert_eq!(ids_from_lines("x\n\n  y \r\n\n"), vec!["x", "y"]);
}

#[test]
fn deletion_sources_in_priority() {
    assert!(matches!(deletion_source(&delete_args(Some("1,2"), Some("f"), None)), Ok(DeletionSource::Ids(v)) if v == vec!["1", "2"]));
    assert!(matches!(deletion_source(&delete_args(None, Some("f"), Some("{}"))), Ok(DeletionSource::File(f)) if f == "f"));
    assert!(matches!(deletion_source(&delete_args(None, None, Some("{}"))), Ok(DeletionSource::Filter(_))));
    assert!(matches!(deletion_source(&delete_args(None, None, None)), Err(BatchError::NoDeletionTargets)));
    assert!(confirms_deletion(" YES "));
    assert!(confirms_deletion("y"));
    assert!(!confirms_deletion("yeah"));
}

#[test]
fn batches_cover_the_items() {
    assert_eq!(batch_ranges(250, 100), vec![(0, 100), (100, 200), (200, 250)]);
    assert_eq!(batch_ranges(200, 100), vec![(0, 100), (100, 200)]);
    assert!(batch_ranges(0, 7).is_empty());
    assert!(reports_progress(0, 3, 10));
    assert!(reports_progress(2, 3, 10));
    assert!(!reports_progress(1, 3, 10));
    assert!(reports_progress(5, 30, 5));
}

#[test]
fn tally_and_preview() {
    let mut t = BatchTally::new();
    assert!(t.record(Ok(()), false));
    assert!(!t.record(Err("boom".to_string()), false));
    assert!(t.record(Err("again".to_string()), true));
    assert_eq!(t.successes, 1);
    assert_eq!(t.errors, vec!["boom", "again"]);
    let items: Vec<String> = (0..25).map(|i| i.to_string()).collect();
    let (shown, more) = preview(&items, 20);
    assert_eq!(shown.len(), 20);
    assert_eq!(more, 5);
}

#[test]
fn document_ids() {
    let doc = obj(vec![("key", s("k1")), ("num", JsonValue::Number(JsonNumber::PosInt(3)))]);
    assert_eq!(document_id(&doc, &Some("key".to_string())), Ok("k1".to_string()));
    assert_eq!(document_id(&doc, &Some("num".to_string())), Err("num".to_string()));
    let fresh = document_id(&doc, &None).unwrap();
    assert!(fresh.starts_with("doc_"));
    assert_eq!(fresh.len(), 40);
    assert_eq!(document_path("c", "d"), "/api/v1/collections/c/documents/d");
}

#[test]
fn queries_and_results() {
    let q = deletion_query(obj(vec![("a", s("b"))]));
    match q {
        JsonValue::Object(m) => assert_eq!(m.iter().map(|(k, _)| k.as_str()).collect::<Vec<_>>(), vec!["fields", "filter", "limit"]),
        _ => panic!(),
    }
    let result = obj(vec![("documents", JsonValue::Array(vec![obj(vec![("_id", s("1"))]), obj(vec![]), obj(vec![("_id", s("3"))])]))]);
    assert_eq!(ids_from_query_result(&result), vec!["1", "3"]);
    match export_query(None, Some(5)) {
        JsonValue::Object(m) => {
            assert_eq!(m.len(), 1);
            assert!(matches!(m[0].1, JsonValue::Number(JsonNumber::PosInt(5))));
        }
        _ => panic!(),
    }
}

#[test]
fn formats_and_sources() {
    assert_eq!(import_format("csv"), Ok(ImportFormat::Csv));
    assert_eq!(import_format("xml"), Err(BatchError::XmlImportUnavailable));
    assert_eq!(import_format("yaml"), Err(BatchError::UnsupportedImportFormat));
    assert_eq!(export_format("jsonl"), Ok(ExportFormat::Jsonl));
    assert_eq!(export_format("xml"), Err(BatchError::XmlExportUnavailable));
    let put = BatchPutArgs { collection: "c".to_string(), file: None, stdin: false, format: "jsonl".to_string(), batch_size: None, parallel: None, continue_on_error: false, verbose: false, id_field: None };
    assert!(matches!(put_source(&put), Err(BatchError::NoInput)));
    let import = BatchImportArgs { collection: "c".to_string(), file: Some("f".to_string()), format: "csv".to_string(), id_field: Some("id".to_string()), map_fields: vec![], validate_schema: None, batch_size: Some(7), parallel: None, continue_on_error: true, verbose: false, mode: "upsert".to_string() };
    let p = put_args_for_import(&import);
    assert_eq!(p.format, "json");
    assert_eq!(p.batch_size, Some(7));
    assert!(p.continue_on_error);
}

#[test]
fn field_mapping_and_selection() {
    let docs = vec![obj(vec![("a", s("1")), ("b", s("2"))]), s("plain")];
    let mapped = apply_field_mapping(&docs, &vec!["a:z".to_string(), "bad".to_string(), "b:y:x".to_string()]);
    match &mapped[0] {
        JsonValue::Object(m) => assert_eq!(m.iter().map(|(k, _)| k.as_str()).collect::<Vec<_>>(), vec!["b", "z"]),
        _ => panic!(),
    }
    assert!(matches!(&mapped[1], JsonValue::Str(x) if x == "plain"));
    let selected = filter_document_fields(&docs, &vec!["b".to_string()]);
    match &selected[0] {
        JsonValue::Object(m) => assert_eq!(m.len(), 1),
        _ => panic!(),
    }
}

#[test]
fn delimited_round_trip() {
    let (header, rows) = import_from_csv("id,name\n1,x\n2,y\n").unwrap();
    assert_eq!(header, vec!["id", "name"]);
    assert_eq!(rows.len(), 2);
    let docs = text_documents(&header, &rows);
    let tsv_docs = import_from_tsv("id\tname\n1\tx\n2\ty\n").unwrap();
    assert_eq!(tsv_docs.len(), 2);
    for d in [&docs[1], &tsv_docs[1]] {
        match d {
            JsonValue::Object(m) => assert!(matches!(&m[1].1, JsonValue::Str(x) if x == "y")),
            _ => panic!(),
        }
    }
    assert_eq!(export_to_csv(&header, &rows).unwrap(), "id,name\n1,x\n2,y\n");
    assert_eq!(export_to_tsv(&header, &rows).unwrap(), "id\tname\n1\tx\n2\ty\n");
    assert_eq!(export_to_csv(&vec!["a".to_string()], &vec![vec!["x,y".to_string()]]).unwrap(), "a\n\"x,y\"\n");
}

#[test]
fn export_table_layout() {
    let docs = vec![
        obj(vec![("b", s("x")), ("c", JsonValue::Null)]),
        s("skipped"),
        obj(vec![("a", JsonValue::Bool(true)), ("d", JsonValue::Array(vec![]))]),
    ];
    let (header, rows) = export_table(&docs);
    assert_eq!(header, vec!["a", "b", "c", "d"]);
    assert_eq!(rows.len(), 2);
    assert!(matches!(&rows[0][0], CsvCell::Text(t) if t.is_empty()));
    assert!(matches!(&rows[0][1], CsvCell::Text(t) if t == "x"));
    assert!(matches!(&rows[1][0], CsvCell::Text(t) if t == "true"));
    assert!(matches!(&rows[1][3], CsvCell::Structured(_)));
}

#[test]
fn deletion_plan_covers_each_id_once() {
    let ids: Vec<String> = (0..7).map(|i| format!("d{}", i)).collect();
    let p = deletion_plan(&ids, false, false, Some(3));
    assert!(!p.nothing_to_delete && p.ask_first && !p.dry_run_only);
    assert_eq!(p.batches.iter().map(|b| b.len()).collect::<Vec<_>>(), vec![3, 3, 1]);
    assert_eq!(p.batches.concat(), ids);
    let forced = deletion_plan(&ids, true, false, None);
    assert!(!forced.ask_first);
    assert_eq!(forced.batches.len(), 1);
    let dry = deletion_plan(&ids, false, true, None);
    assert!(dry.dry_run_only && !dry.ask_first);
    let empty = deletion_plan(&Vec::new(), false, false, None);
    assert!(empty.nothing_to_delete && !empty.ask_first && empty.batches.is_empty());
    assert!(deletion_plan(&ids, true, false, Some(0)).batches.is_empty());
}
