use aerolithdb::batch_ops::{
    BatchError, ImportFormat, TextDocumentsError, compress_data, documents_from_text, import_format,
};
use aerolithdb::config_tools::{ConfigParseError, ConfigSyntax, parse_config};
use aerolithdb::json::{JsonInputError, JsonNumber, JsonValue, json_input_path, parse_json_input};

#[test]
fn test_parse_json_input_inline() {
    let v = parse_json_input(r#"{"test": "value"}"#, None).unwrap();
    assert!(matches!(v.get("test"), Some(JsonValue::Str(s)) if s == "value"));
}

#[test]
fn json_input_from_files() {
    assert_eq!(json_input_path("@data.json"), Some("data.json".to_string()));
    assert_eq!(json_input_path("{}"), None);
    assert_eq!(json_input_path(""), None);
    assert!(matches!(parse_json_input("@nonexistent.json", None), Err(JsonInputError::FileNotFound)));
    let v = parse_json_input("@f.json", Some("[1, 2]".to_string())).unwrap();
    assert!(matches!(v, JsonValue::Array(ref xs) if xs.len() == 2));
    assert!(matches!(parse_json_input("@f.json", Some("{".to_string())), Err(JsonInputError::InvalidFileJson)));
    assert!(matches!(parse_json_input("{nope", None), Err(JsonInputError::InvalidJson)));
    let n = parse_json_input("-3", None).unwrap();
    assert!(matches!(n, JsonValue::Number(JsonNumber::NegInt(-3))));
}

#[test]
fn config_texts() {
    let y = parse_config(ConfigSyntax::Yaml, "node:\n  port: 8080\n").unwrap();
    assert!(matches!(y.get("node").unwrap().get("port"), Some(JsonValue::Number(JsonNumber::PosInt(8080)))));
    let t = parse_config(ConfigSyntax::Toml, "[node]\nport = 8081\n").unwrap();
    assert!(matches!(t.get("node").unwrap().get("port"), Some(JsonValue::Number(JsonNumber::PosInt(8081)))));
    let j = parse_config(ConfigSyntax::Json, r#"{"a": true}"#).unwrap();
    assert!(matches!(j.get("a"), Some(JsonValue::Bool(true))));
    assert!(matches!(parse_config(ConfigSyntax::Json, "x"), Err(ConfigParseError::Json)));
    assert!(matches!(parse_config(ConfigSyntax::Toml, "= ="), Err(ConfigParseError::Toml(_))));
    assert!(matches!(parse_config(ConfigSyntax::Yaml, "a: [1"), Err(ConfigParseError::Yaml(_))));
}

#[test]
fn batch_texts() {
    let docs = documents_from_text("[{\"a\":1},{\"a\":2}]", "json").unwrap();
    assert_eq!(docs.len(), 2);
    assert_eq!(documents_from_text("{\"a\":1}", "json").unwrap().len(), 1);
    let lines = documents_from_text("{\"a\":1}\n\n  \n{\"a\":2}\n", "jsonl").unwrap();
    assert_eq!(lines.len(), 2);
    assert!(matches!(lines[1].get("a"), Some(JsonValue::Number(JsonNumber::PosInt(2)))));
    assert_eq!(documents_from_text("{\"a\":1}\nbad\n", "jsonl").err(), Some(TextDocumentsError::InvalidJson));
    assert_eq!(documents_from_text("", "xml").err(), Some(TextDocumentsError::UnsupportedFormat));
}

#[test]
fn gzip_and_parquet() {
    let z = compress_data("hello hello hello");
    assert_eq!(&z[..2], &[0x1f, 0x8b]);
    assert_ne!(z, b"hello hello hello".to_vec());
    assert_eq!(import_format("parquet"), Ok(ImportFormat::Parquet));
    assert_eq!(import_format("xml"), Err(BatchError::XmlImportUnavailable));
}

#[test]
fn test_parse_json_input_file_not_found() {
    let result = parse_json_input("@nonexistent.json", None);
    assert!(result.is_err());
    assert_eq!(result.err(), Some(JsonInputError::FileNotFound));
}

