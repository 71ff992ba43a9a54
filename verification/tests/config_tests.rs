use aerolithdb::args::{ConfigGenerateArgs, ConfigShowArgs, ConfigValidateArgs};
use aerolithdb::config_tools::{
    ConfigError, ConfigOutput, ConfigSyntax, ValidationFailure, ValidationTarget, config_syntax,
    filter_config_by_components, filter_config_by_section, format_config_as_table, generate_basic_config,
    generate_cluster_config, generate_development_config, generate_env_format, generate_production_config,
    generate_security_config, mask_sensitive_values, prepare_generated_config, prepare_shown_config,
    report_entries, template_by_name, validate_config_structure, validation_target, validation_verdict,
};
use aerolithdb::json::{JsonNumber, JsonValue};

fn obj(members: Vec<(&str, JsonValue)>) -> JsonValue {
    JsonValue::Object(members.into_iter().map(|(k, v)| (k.to_string(), v)).collect())
}

fn s(x: &str) -> JsonValue {
    JsonValue::Str(x.to_string())
}

fn n(x: u64) -> JsonValue {
    JsonValue::Number(JsonNumber::PosInt(x))
}

fn keys(v: &JsonValue) -> Vec<String> {
    match v {
        JsonValue::Object(m) => m.iter().map(|(k, _)| k.clone()).collect(),
        _ => vec![],
    }
}

fn check(v: &JsonValue) -> (Vec<String>, Vec<String>) {
    let mut e = vec![];
    let mut w = vec![];
    validate_config_structure(v, &mut e, &mut w);
    (e, w)
}

#[test]
fn templates_are_valid() {
    for t in [generate_basic_config(), generate_development_config(), generate_production_config(), generate_cluster_config()] {
        assert_eq!(check(&t), (vec![], vec![]));
    }
    let (errors, _) = check(&generate_security_config());
    assert_eq!(
        errors,
        vec![
            "Missing required section: node",
            "Missing required section: storage",
            "Missing required section: api",
        ]
    );
}

#[test]
fn template_keys_are_sorted() {
    assert_eq!(keys(&generate_basic_config()), vec!["api", "node", "security", "storage"]);
    assert_eq!(
        keys(&generate_cluster_config()),
        vec!["api", "consensus", "network", "node", "security", "storage"]
    );
    assert!(template_by_name("nope").is_none());
}

#[test]
fn validation_reports_every_problem() {
    let config = obj(vec![
        ("api", obj(vec![("rest_api", obj(vec![("port", n(80))]))])),
        ("node", obj(vec![("node_id", s("")), ("port", n(70000))])),
        ("storage", obj(vec![("data_dir", s("")), ("replication_factor", n(0))])),
    ]);
    let (errors, warnings) = check(&config);
    assert_eq!(
        errors,
        vec![
            "Node port must be between 1024 and 65535",
            "Node ID must be 1-64 characters",
            "Storage data_dir cannot be empty",
            "REST API port must be between 1024 and 65535",
        ]
    );
    assert_eq!(warnings, vec!["Replication factor should typically be between 1 and 10"]);
    let long_id = obj(vec![("node", obj(vec![("node_id", s(&"é".repeat(33)))]))]);
    assert!(check(&long_id).0.contains(&"Node ID must be 1-64 characters".to_string()));
    let ok_id = obj(vec![("node", obj(vec![("node_id", s(&"é".repeat(32)))]))]);
    assert!(!check(&ok_id).0.contains(&"Node ID must be 1-64 characters".to_string()));
}

#[test]
fn verdicts() {
    assert_eq!(validation_verdict(2, 5, false), Err(ValidationFailure::Errors(2)));
    assert_eq!(validation_verdict(0, 1, true), Err(ValidationFailure::StrictWarnings));
    assert_eq!(validation_verdict(0, 1, false), Ok(()));
    assert_eq!(config_syntax("a.yml"), Some(ConfigSyntax::Yaml));
    assert_eq!(config_syntax("a.json"), Some(ConfigSyntax::Json));
    assert_eq!(config_syntax("a.toml"), Some(ConfigSyntax::Toml));
    assert_eq!(config_syntax("a.ini"), None);
}

#[test]
fn masking_hides_secrets_recursively() {
    let config = obj(vec![
        ("db", obj(vec![("Password", s("p")), ("host", s("h"))])),
        ("api_key", s("k")),
        ("list", JsonValue::Array(vec![obj(vec![("token", s("t"))])])),
    ]);
    let masked = mask_sensitive_values(config);
    let table = format_config_as_table(&masked);
    assert!(table.contains("db.Password                    ***MASKED***\n"));
    assert!(table.contains("db.host                        h\n"));
    assert!(table.contains("api_key                        ***MASKED***\n"));
    assert!(table.contains("list                           [1 items]\n"));
    let users = mask_sensitive_values(obj(vec![("users", JsonValue::Array(vec![obj(vec![("password", s("hunter2"))])]))]));
    match users.get("users") {
        Some(JsonValue::Array(items)) => {
            assert!(matches!(items[0].get("password"), Some(JsonValue::Str(x)) if x == "***MASKED***"))
        }
        _ => panic!(),
    }
    let twice = mask_sensitive_values(mask_sensitive_values(generate_security_config()));
    let once = mask_sensitive_values(generate_security_config());
    assert_eq!(format_config_as_table(&twice), format_config_as_table(&once));
}

#[test]
fn env_and_table_formats() {
    let config = obj(vec![("node", obj(vec![("port", n(8080)), ("tls", JsonValue::Bool(true))])), ("x", JsonValue::Null)]);
    assert_eq!(generate_env_format(&config), "aerolithSDB_NODE_PORT=8080\naerolithSDB_NODE_TLS=true");
    assert_eq!(
        format_config_as_table(&config),
        "Configuration Settings\n=====================\n\nnode.port                      8080\nnode.tls                       true\nx                              null\n"
    );
}

#[test]
fn component_and_section_filters() {
    let base = generate_basic_config();
    let f = filter_config_by_components(&base, &vec!["storage".to_string(), "missing".to_string(), "api".to_string()]);
    assert_eq!(keys(&f), vec!["api", "storage"]);
    assert!(filter_config_by_section(&base, "node").is_some());
    assert!(filter_config_by_section(&base, "nope").is_none());
}

#[test]
fn generate_and_show_flows() {
    let args = ConfigGenerateArgs { template: "basic".to_string(), format: "env".to_string(), output: None, components: vec!["node".to_string()] };
    let (cfg, out) = prepare_generated_config(&args).unwrap();
    assert_eq!(out, ConfigOutput::Env);
    assert_eq!(keys(&cfg), vec!["node"]);
    let bad = ConfigGenerateArgs { template: "x".to_string(), format: "xml".to_string(), output: None, components: vec![] };
    assert_eq!(prepare_generated_config(&bad).err(), Some(ConfigError::UnknownTemplate));
    let bad_format = ConfigGenerateArgs { template: "basic".to_string(), format: "xml".to_string(), output: None, components: vec![] };
    assert_eq!(prepare_generated_config(&bad_format).err(), Some(ConfigError::UnsupportedFormat));
    let show = ConfigShowArgs { server_config: false, section: Some("security".to_string()), format: "table".to_string(), show_secrets: false, changed_only: false };
    let (shown, out) = prepare_shown_config(generate_security_config(), &show).unwrap();
    assert_eq!(out, ConfigOutput::Table);
    assert!(format_config_as_table(&shown).contains("tls.key_file"));
    let missing = ConfigShowArgs { server_config: false, section: Some("zzz".to_string()), format: "table".to_string(), show_secrets: false, changed_only: false };
    assert_eq!(prepare_shown_config(generate_basic_config(), &missing).err(), Some(ConfigError::SectionNotFound));
}

#[test]
fn validation_targets_and_reports() {
    let server = ConfigValidateArgs { file_path: Some("x".to_string()), server_config: true, strict: false };
    assert!(matches!(validation_target(&server), Ok(ValidationTarget::Server)));
    let file = ConfigValidateArgs { file_path: Some("c.yaml".to_string()), server_config: false, strict: true };
    assert!(matches!(validation_target(&file), Ok(ValidationTarget::File(p)) if p == "c.yaml"));
    let none = ConfigValidateArgs { file_path: None, server_config: false, strict: false };
    assert!(matches!(validation_target(&none), Err(ConfigError::NoValidationTarget)));
    let report = obj(vec![("errors", JsonValue::Array(vec![s("bad"), n(1)]))]);
    assert_eq!(report_entries(&report, "errors", "Unknown error"), vec!["bad", "Unknown error"]);
    assert!(report_entries(&report, "warnings", "Unknown warning").is_empty());
}
