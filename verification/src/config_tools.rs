//! Configuration files: the structural checks, the verdict of a validation, the
//! templates, and the transformations applied before a configuration is shown.
use vstd::prelude::*;
use crate::json::{
    json_text_model, parse_json_text,
    JsonModel, JsonNumber, JsonValue, NumberModel, array, insert_member, inserted, items_model, lookup,
    members_model, no_members, object, push_member, text, uint,
};
use crate::stats::{child_path, number_text, push_number};
use crate::text::{
    concat, contains_seq, decimal, ends_with_seq, join_seq, join_strings, lower_text, owned, push_char,
    push_decimal, push_str, str_contains, str_ends_with, str_equal, strings_view, to_lower, to_upper,
    upper_text, utf8_len, utf8_longer_than,
};

verus! {

/// What `as_u64` reads from a JSON value: a non-negative integer.
pub open spec fn as_u64_spec(v: Option<JsonModel>) -> Option<nat> {
    match v {
        Some(JsonModel::Number(NumberModel::PosInt(u))) => Some(u),
        Some(JsonModel::Number(NumberModel::NegInt(i))) => if i >= 0 {
            Some(i as nat)
        } else {
            None
        },
        _ => None,
    }
}

/// What `as_str` reads from a JSON value: a string.
pub open spec fn as_str_spec(v: Option<JsonModel>) -> Option<Seq<char>> {
    match v {
        Some(JsonModel::Str(s)) => Some(s),
        _ => None,
    }
}

fn as_u64(v: Option<&JsonValue>) -> (r: Option<u64>)
    ensures
        match r {
            Some(u) => as_u64_spec(match v {
                Some(x) => Some(x.model()),
                None => None,
            }) == Some(u as nat),
            None => as_u64_spec(match v {
                Some(x) => Some(x.model()),
                None => None,
            }) is None,
        },
{
    match v {
        Some(JsonValue::Number(JsonNumber::PosInt(u))) => Some(*u),
        Some(JsonValue::Number(JsonNumber::NegInt(i))) => if *i >= 0 {
            Some(*i as u64)
        } else {
            None
        },
        _ => None,
    }
}

/// The model of a looked-up member, if any.
pub open spec fn found(v: Option<&JsonValue>) -> Option<JsonModel> {
    match v {
        Some(x) => Some(x.model()),
        None => None,
    }
}

/// An error for each required section that is missing.
pub open spec fn missing_section(config: JsonModel, section: Seq<char>) -> Seq<Seq<char>> {
    if lookup(config, section) is None {
        seq!["Missing required section: "@ + section]
    } else {
        Seq::empty()
    }
}

/// Whether a port lies outside 1024..=65535.
pub open spec fn bad_port(port: Option<nat>) -> bool {
    match port {
        Some(p) => p < 1024 || p > 65535,
        None => false,
    }
}

/// The errors of the node section.
pub open spec fn node_errors(config: JsonModel) -> Seq<Seq<char>> {
    match lookup(config, "node"@) {
        Some(node) => (if bad_port(as_u64_spec(lookup(node, "port"@))) {
            seq!["Node port must be between 1024 and 65535"@]
        } else {
            Seq::empty()
        }) + (match as_str_spec(lookup(node, "node_id"@)) {
            Some(id) => if id.len() == 0 || utf8_len(id) > 64 {
                seq!["Node ID must be 1-64 characters"@]
            } else {
                Seq::empty()
            },
            None => Seq::empty(),
        }),
        None => Seq::empty(),
    }
}

/// The errors of the storage section.
pub open spec fn storage_errors(config: JsonModel) -> Seq<Seq<char>> {
    match lookup(config, "storage"@) {
        Some(storage) => match as_str_spec(lookup(storage, "data_dir"@)) {
            Some(d) => if d.len() == 0 {
                seq!["Storage data_dir cannot be empty"@]
            } else {
                Seq::empty()
            },
            None => Seq::empty(),
        },
        None => Seq::empty(),
    }
}

/// The errors of the API section.
pub open spec fn api_errors(config: JsonModel) -> Seq<Seq<char>> {
    match lookup(config, "api"@) {
        Some(api) => match lookup(api, "rest_api"@) {
            Some(rest) => if bad_port(as_u64_spec(lookup(rest, "port"@))) {
                seq!["REST API port must be between 1024 and 65535"@]
            } else {
                Seq::empty()
            },
            None => Seq::empty(),
        },
        None => Seq::empty(),
    }
}

/// The errors a configuration has, in the order they are reported.
pub open spec fn config_errors(config: JsonModel) -> Seq<Seq<char>> {
    missing_section(config, "node"@) + missing_section(config, "storage"@) + missing_section(
        config,
        "api"@,
    ) + node_errors(config) + storage_errors(config) + api_errors(config)
}

/// The warnings a configuration has.
pub open spec fn config_warnings(config: JsonModel) -> Seq<Seq<char>> {
    match lookup(config, "storage"@) {
        Some(storage) => match as_u64_spec(lookup(storage, "replication_factor"@)) {
            Some(r) => if r == 0 || r > 10 {
                seq!["Replication factor should typically be between 1 and 10"@]
            } else {
                Seq::empty()
            },
            None => Seq::empty(),
        },
        None => Seq::empty(),
    }
}

fn push_message(out: &mut Vec<String>, message: String)
    ensures
        strings_view(final(out)@) == strings_view(old(out)@) + seq![message@],
{
    let ghost before = out@;
    out.push(message);
    assert(strings_view(out@) =~= strings_view(before) + seq![message@]);
}

fn check_section_present(config: &JsonValue, section: &str, errors: &mut Vec<String>)
    ensures
        strings_view(final(errors)@) == strings_view(old(errors)@) + missing_section(config.model(), section@),
{
    if config.get(section).is_none() {
        push_message(errors, concat("Missing required section: ", section));
    } else {
        assert(strings_view(errors@) =~= strings_view(old(errors)@) + missing_section(config.model(), section@));
    }
}

fn check_node(config: &JsonValue, errors: &mut Vec<String>)
    ensures
        strings_view(final(errors)@) == strings_view(old(errors)@) + node_errors(config.model()),
{
    match config.get("node") {
        Some(node) => {
            let ghost e0 = strings_view(errors@);
            match as_u64(node.get("port")) {
                Some(port) => if port < 1024 || port > 65535 {
                    push_message(errors, owned("Node port must be between 1024 and 65535"));
                },
                None => {},
            }
            let ghost e1 = strings_view(errors@);
            match node.get("node_id") {
                Some(JsonValue::Str(id)) => {
                    if id.unicode_len() == 0 || utf8_longer_than(id.as_str(), 64) {
                        push_message(errors, owned("Node ID must be 1-64 characters"));
                    }
                },
                _ => {},
            }
            assert(strings_view(errors@) =~= strings_view(old(errors)@) + node_errors(config.model()));
        },
        None => {
            assert(strings_view(errors@) =~= strings_view(old(errors)@) + node_errors(config.model()));
        },
    }
}

fn check_storage(config: &JsonValue, errors: &mut Vec<String>, warnings: &mut Vec<String>)
    ensures
        strings_view(final(errors)@) == strings_view(old(errors)@) + storage_errors(config.model()),
        strings_view(final(warnings)@) == strings_view(old(warnings)@) + config_warnings(config.model()),
{
    match config.get("storage") {
        Some(storage) => {
            match storage.get("data_dir") {
                Some(JsonValue::Str(d)) => {
                    if d.unicode_len() == 0 {
                        push_message(errors, owned("Storage data_dir cannot be empty"));
                    }
                },
                _ => {},
            }
            match as_u64(storage.get("replication_factor")) {
                Some(r) => if r == 0 || r > 10 {
                    push_message(warnings, owned("Replication factor should typically be between 1 and 10"));
                },
                None => {},
            }
            assert(strings_view(errors@) =~= strings_view(old(errors)@) + storage_errors(config.model()));
            assert(strings_view(warnings@) =~= strings_view(old(warnings)@) + config_warnings(config.model()));
        },
        None => {
            assert(strings_view(errors@) =~= strings_view(old(errors)@) + storage_errors(config.model()));
            assert(strings_view(warnings@) =~= strings_view(old(warnings)@) + config_warnings(config.model()));
        },
    }
}

fn check_api(config: &JsonValue, errors: &mut Vec<String>)
    ensures
        strings_view(final(errors)@) == strings_view(old(errors)@) + api_errors(config.model()),
{
    match config.get("api") {
        Some(api) => match api.get("rest_api") {
            Some(rest) => match as_u64(rest.get("port")) {
                Some(port) => if port < 1024 || port > 65535 {
                    push_message(errors, owned("REST API port must be between 1024 and 65535"));
                } else {
                    assert(strings_view(errors@) =~= strings_view(old(errors)@) + api_errors(config.model()));
                },
                None => {
                    assert(strings_view(errors@) =~= strings_view(old(errors)@) + api_errors(config.model()));
                },
            },
            None => {
                assert(strings_view(errors@) =~= strings_view(old(errors)@) + api_errors(config.model()));
            },
        },
        None => {
            assert(strings_view(errors@) =~= strings_view(old(errors)@) + api_errors(config.model()));
        },
    }
}

/// Checks a configuration's structure: appends its errors and warnings.
pub fn validate_config_structure(config: &JsonValue, errors: &mut Vec<String>, warnings: &mut Vec<String>)
    ensures
        strings_view(final(errors)@) == strings_view(old(errors)@) + config_errors(config.model()),
        strings_view(final(warnings)@) == strings_view(old(warnings)@) + config_warnings(config.model()),
{
    let ghost c = config.model();
    let ghost e0 = strings_view(errors@);
    check_section_present(config, "node", errors);
    check_section_present(config, "storage", errors);
    check_section_present(config, "api", errors);
    let ghost e1 = strings_view(errors@);
    check_node(config, errors);
    let ghost e2 = strings_view(errors@);
    check_storage(config, errors, warnings);
    let ghost e3 = strings_view(errors@);
    check_api(config, errors);
    assert(strings_view(errors@) =~= e0 + config_errors(c));
}

/// Why a validation failed.
#[derive(Debug, PartialEq, Eq, Structural)]
pub enum ValidationFailure {
    /// The configuration has this many errors.
    Errors(usize),
    /// Strict mode, and the configuration has warnings.
    StrictWarnings,
}

/// The verdict of a validation: errors fail it; warnings fail it in strict mode only.
pub fn validation_verdict(errors: usize, warnings: usize, strict: bool) -> (r: Result<(), ValidationFailure>)
    ensures
        r == if errors > 0 {
            Err(ValidationFailure::Errors(errors))
        } else if warnings > 0 && strict {
            Err(ValidationFailure::StrictWarnings)
        } else {
            Ok(())
        },
{
    if errors > 0 {
        Err(ValidationFailure::Errors(errors))
    } else if warnings > 0 && strict {
        Err(ValidationFailure::StrictWarnings)
    } else {
        Ok(())
    }
}

/// The syntaxes of configuration files.
#[derive(Clone, Copy, Debug, PartialEq, Eq, Structural)]
pub enum ConfigSyntax {
    Json,
    Yaml,
    Toml,
}

/// The value that `serde_yaml` reads from a YAML text, or nothing when it refuses it.
pub uninterp spec fn yaml_text_model(text: Seq<char>) -> Option<JsonModel>;

/// The value that the `toml` crate reads from a TOML text, or nothing when it
/// refuses it.
pub uninterp spec fn toml_text_model(text: Seq<char>) -> Option<JsonModel>;

/// `serde_yaml::from_str` into a JSON value: the value read, named by
/// `yaml_text_model`; a refusal comes back as the crate's message.
#[verifier::external_body]
fn parse_yaml_text(text: &str) -> (r: Result<JsonValue, String>)
    ensures
        match r {
            Ok(v) => yaml_text_model(text@) == Some(v.model()),
            Err(_) => yaml_text_model(text@) is None,
        },
{
    match serde_yaml::from_str::<serde_json::Value>(text) {
        Ok(v) => Ok(crate::json::json_from_serde(&v)),
        Err(e) => Err(e.to_string()),
    }
}

/// `toml::from_str` into a JSON value: the value read, named by `toml_text_model`;
/// a refusal comes back as the crate's message.
#[verifier::external_body]
fn parse_toml_text(text: &str) -> (r: Result<JsonValue, String>)
    ensures
        match r {
            Ok(v) => toml_text_model(text@) == Some(v.model()),
            Err(_) => toml_text_model(text@) is None,
        },
{
    match toml::from_str::<serde_json::Value>(text) {
        Ok(v) => Ok(crate::json::json_from_serde(&v)),
        Err(e) => Err(e.to_string()),
    }
}

/// Why a configuration text could not be read.
#[derive(Debug, PartialEq, Eq)]
pub enum ConfigParseError {
    /// Not JSON.
    Json,
    /// Not YAML; the parser's message.
    Yaml(String),
    /// Not TOML; the parser's message.
    Toml(String),
}

/// The configuration written in `content` in the given syntax.
pub fn parse_config(syntax: ConfigSyntax, content: &str) -> (r: Result<JsonValue, ConfigParseError>)
    ensures
        match syntax {
            ConfigSyntax::Json => match json_text_model(content@) {
                Some(m) => r matches Ok(v) && v.model() == m,
                None => r == Err::<JsonValue, ConfigParseError>(ConfigParseError::Json),
            },
            ConfigSyntax::Yaml => match yaml_text_model(content@) {
                Some(m) => r matches Ok(v) && v.model() == m,
                None => r matches Err(ConfigParseError::Yaml(_)),
            },
            ConfigSyntax::Toml => match toml_text_model(content@) {
                Some(m) => r matches Ok(v) && v.model() == m,
                None => r matches Err(ConfigParseError::Toml(_)),
            },
        },
{
    match syntax {
        ConfigSyntax::Json => match parse_json_text(content) {
            Some(v) => Ok(v),
            None => Err(ConfigParseError::Json),
        },
        ConfigSyntax::Yaml => match parse_yaml_text(content) {
            Ok(v) => Ok(v),
            Err(e) => Err(ConfigParseError::Yaml(e)),
        },
        ConfigSyntax::Toml => match parse_toml_text(content) {
            Ok(v) => Ok(v),
            Err(e) => Err(ConfigParseError::Toml(e)),
        },
    }
}

/// The syntax of a configuration file, by its extension.
pub open spec fn config_syntax_spec(path: Seq<char>) -> Option<ConfigSyntax> {
    if ends_with_seq(path, ".json"@) {
        Some(ConfigSyntax::Json)
    } else if ends_with_seq(path, ".yaml"@) || ends_with_seq(path, ".yml"@) {
        Some(ConfigSyntax::Yaml)
    } else if ends_with_seq(path, ".toml"@) {
        Some(ConfigSyntax::Toml)
    } else {
        None
    }
}

/// The syntax of a configuration file, by its extension; nothing for an unsupported one.
pub fn config_syntax(path: &str) -> (r: Option<ConfigSyntax>)
    ensures
        r == config_syntax_spec(path@),
{
    if str_ends_with(path, ".json") {
        Some(ConfigSyntax::Json)
    } else if str_ends_with(path, ".yaml") || str_ends_with(path, ".yml") {
        Some(ConfigSyntax::Yaml)
    } else if str_ends_with(path, ".toml") {
        Some(ConfigSyntax::Toml)
    } else {
        None
    }
}

/// The messages of a server's validation report: each entry of the named array, or
/// `fallback` for an entry that is not a string; nothing when there is no such array.
pub open spec fn report_messages(report: JsonModel, key: Seq<char>, fallback: Seq<char>) -> Seq<Seq<char>> {
    match lookup(report, key) {
        Some(JsonModel::Array(items)) => Seq::new(
            items.len(),
            |i: int|
                match items[i] {
                    JsonModel::Str(s) => s,
                    _ => fallback,
                },
        ),
        _ => Seq::empty(),
    }
}

/// The messages of a server's validation report under `key`.
pub fn report_entries(report: &JsonValue, key: &str, fallback: &str) -> (r: Vec<String>)
    ensures
        strings_view(r@) == report_messages(report.model(), key@, fallback@),
{
    let mut out: Vec<String> = Vec::new();
    match report.get(key) {
        Some(JsonValue::Array(items)) => {
            let ghost ims = JsonValue::Array(*items).model()->Array_0;
            let mut i: usize = 0;
            while i < items.len()
                invariant
                    i <= items@.len(),
                    ims == JsonValue::Array(*items).model()->Array_0,
                    ims.len() == items@.len(),
                    out@.len() == i,
                    forall|k: int|
                        0 <= k < i ==> #[trigger] out@[k]@ == match ims[k] {
                            JsonModel::Str(s) => s,
                            _ => fallback@,
                        },
                decreases items@.len() - i,
            {
                assert(ims[i as int] == items@[i as int].model());
                match &items[i] {
                    JsonValue::Str(s) => out.push(s.clone()),
                    _ => out.push(owned(fallback)),
                }
                i = i + 1;
            }
            assert(strings_view(out@) =~= report_messages(report.model(), key@, fallback@));
        },
        _ => {
            assert(strings_view(out@) =~= report_messages(report.model(), key@, fallback@));
        },
    }
    out
}

/// The basic template: one node, local storage, the REST API, basic security.
pub open spec fn basic_template() -> JsonModel {
    JsonModel::Object(
      seq![
        ("api"@, JsonModel::Object(
          seq![
            ("rest_api"@, JsonModel::Object(
              seq![
                ("cors_enabled"@, JsonModel::Bool(true)),
                ("enabled"@, JsonModel::Bool(true)),
                ("port"@, JsonModel::Number(NumberModel::PosInt(8080))),
              ],
            )),
          ],
        )),
        ("node"@, JsonModel::Object(
          seq![
            ("bind_address"@, JsonModel::Str("0.0.0.0"@)),
            ("node_id"@, JsonModel::Str("aerolithsdb-node-001"@)),
            ("port"@, JsonModel::Number(NumberModel::PosInt(8080))),
          ],
        )),
        ("security"@, JsonModel::Object(
          seq![
            ("audit_level"@, JsonModel::Str("Basic"@)),
            ("encryption_algorithm"@, JsonModel::Str("XChaCha20Poly1305"@)),
            ("zero_trust"@, JsonModel::Bool(false)),
          ],
        )),
        ("storage"@, JsonModel::Object(
          seq![
            ("data_dir"@, JsonModel::Str("./data"@)),
            ("replication_factor"@, JsonModel::Number(NumberModel::PosInt(1))),
            ("sharding_strategy"@, JsonModel::Str("ConsistentHash"@)),
          ],
        )),
      ],
    )
}

/// The basic configuration template.
pub fn generate_basic_config() -> (config: JsonValue)
    ensures
        config.model() == basic_template(),
{
    let mut o1 = no_members();
    let mut o2 = no_members();
    let mut o3 = no_members();
    push_member(&mut o3, "cors_enabled", JsonValue::Bool(true));
    push_member(&mut o3, "enabled", JsonValue::Bool(true));
    push_member(&mut o3, "port", uint(8080));
    assert(members_model(o3@) =~= basic_template()->Object_0[0].1->Object_0[0].1->Object_0);
    let o3 = object(o3);
    push_member(&mut o2, "rest_api", o3);
    assert(members_model(o2@) =~= basic_template()->Object_0[0].1->Object_0);
    let o2 = object(o2);
    push_member(&mut o1, "api", o2);
    let mut o4 = no_members();
    push_member(&mut o4, "bind_address", text("0.0.0.0"));
    push_member(&mut o4, "node_id", text("aerolithsdb-node-001"));
    push_member(&mut o4, "port", uint(8080));
    assert(members_model(o4@) =~= basic_template()->Object_0[1].1->Object_0);
    let o4 = object(o4);
    push_member(&mut o1, "node", o4);
    let mut o5 = no_members();
    push_member(&mut o5, "audit_level", text("Basic"));
    push_member(&mut o5, "encryption_algorithm", text("XChaCha20Poly1305"));
    push_member(&mut o5, "zero_trust", JsonValue::Bool(false));
    assert(members_model(o5@) =~= basic_template()->Object_0[2].1->Object_0);
    let o5 = object(o5);
    push_member(&mut o1, "security", o5);
    let mut o6 = no_members();
    push_member(&mut o6, "data_dir", text("./data"));
    push_member(&mut o6, "replication_factor", uint(1));
    push_member(&mut o6, "sharding_strategy", text("ConsistentHash"));
    assert(members_model(o6@) =~= basic_template()->Object_0[3].1->Object_0);
    let o6 = object(o6);
    push_member(&mut o1, "storage", o6);
    assert(members_model(o1@) =~= basic_template()->Object_0);
    let o1 = object(o1);
    o1
}

/// The development template: a local node with debug logging and both APIs.
pub open spec fn development_template() -> JsonModel {
    JsonModel::Object(
      seq![
        ("api"@, JsonModel::Object(
          seq![
            ("grpc_api"@, JsonModel::Object(
              seq![
                ("enabled"@, JsonModel::Bool(true)),
                ("port"@, JsonModel::Number(NumberModel::PosInt(8082))),
              ],
            )),
            ("rest_api"@, JsonModel::Object(
              seq![
                ("cors_enabled"@, JsonModel::Bool(true)),
                ("enabled"@, JsonModel::Bool(true)),
                ("port"@, JsonModel::Number(NumberModel::PosInt(8080))),
              ],
            )),
          ],
        )),
        ("node"@, JsonModel::Object(
          seq![
            ("bind_address"@, JsonModel::Str("127.0.0.1"@)),
            ("node_id"@, JsonModel::Str("dev-node-001"@)),
            ("port"@, JsonModel::Number(NumberModel::PosInt(8080))),
          ],
        )),
        ("observability"@, JsonModel::Object(
          seq![
            ("logging"@, JsonModel::Object(
              seq![
                ("level"@, JsonModel::Str("debug"@)),
                ("structured"@, JsonModel::Bool(true)),
              ],
            )),
          ],
        )),
        ("security"@, JsonModel::Object(
          seq![
            ("audit_level"@, JsonModel::Str("Basic"@)),
            ("encryption_algorithm"@, JsonModel::Str("XChaCha20Poly1305"@)),
            ("zero_trust"@, JsonModel::Bool(false)),
          ],
        )),
        ("storage"@, JsonModel::Object(
          seq![
            ("data_dir"@, JsonModel::Str("./dev-data"@)),
            ("replication_factor"@, JsonModel::Number(NumberModel::PosInt(1))),
            ("sharding_strategy"@, JsonModel::Str("ConsistentHash"@)),
          ],
        )),
      ],
    )
}

/// The development configuration template.
pub fn generate_development_config() -> (config: JsonValue)
    ensures
        config.model() == development_template(),
{
    let mut o1 = no_members();
    let mut o2 = no_members();
    let mut o3 = no_members();
    push_member(&mut o3, "enabled", JsonValue::Bool(true));
    push_member(&mut o3, "port", uint(8082));
    assert(members_model(o3@) =~= development_template()->Object_0[0].1->Object_0[0].1->Object_0);
    let o3 = object(o3);
    push_member(&mut o2, "grpc_api", o3);
    let mut o4 = no_members();
    push_member(&mut o4, "cors_enabled", JsonValue::Bool(true));
    push_member(&mut o4, "enabled", JsonValue::Bool(true));
    push_member(&mut o4, "port", uint(8080));
    assert(members_model(o4@) =~= development_template()->Object_0[0].1->Object_0[1].1->Object_0);
    let o4 = object(o4);
    push_member(&mut o2, "rest_api", o4);
    assert(members_model(o2@) =~= development_template()->Object_0[0].1->Object_0);
    let o2 = object(o2);
    push_member(&mut o1, "api", o2);
    let mut o5 = no_members();
    push_member(&mut o5, "bind_address", text("127.0.0.1"));
    push_member(&mut o5, "node_id", text("dev-node-001"));
    push_member(&mut o5, "port", uint(8080));
    assert(members_model(o5@) =~= development_template()->Object_0[1].1->Object_0);
    let o5 = object(o5);
    push_member(&mut o1, "node", o5);
    let mut o6 = no_members();
    let mut o7 = no_members();
    push_member(&mut o7, "level", text("debug"));
    push_member(&mut o7, "structured", JsonValue::Bool(true));
    assert(members_model(o7@) =~= development_template()->Object_0[2].1->Object_0[0].1->Object_0);
    let o7 = object(o7);
    push_member(&mut o6, "logging", o7);
    assert(members_model(o6@) =~= development_template()->Object_0[2].1->Object_0);
    let o6 = object(o6);
    push_member(&mut o1, "observability", o6);
    let mut o8 = no_members();
    push_member(&mut o8, "audit_level", text("Basic"));
    push_member(&mut o8, "encryption_algorithm", text("XChaCha20Poly1305"));
    push_member(&mut o8, "zero_trust", JsonValue::Bool(false));
    assert(members_model(o8@) =~= development_template()->Object_0[3].1->Object_0);
    let o8 = object(o8);
    push_member(&mut o1, "security", o8);
    let mut o9 = no_members();
    push_member(&mut o9, "data_dir", text("./dev-data"));
    push_member(&mut o9, "replication_factor", uint(1));
    push_member(&mut o9, "sharding_strategy", text("ConsistentHash"));
    assert(members_model(o9@) =~= development_template()->Object_0[4].1->Object_0);
    let o9 = object(o9);
    push_member(&mut o1, "storage", o9);
    assert(members_model(o1@) =~= development_template()->Object_0);
    let o1 = object(o1);
    o1
}

/// The production template: replicated storage, zero-trust security, logging and tracing.
pub open spec fn production_template() -> JsonModel {
    JsonModel::Object(
      seq![
        ("api"@, JsonModel::Object(
          seq![
            ("grpc_api"@, JsonModel::Object(
              seq![
                ("enabled"@, JsonModel::Bool(true)),
                ("port"@, JsonModel::Number(NumberModel::PosInt(8082))),
              ],
            )),
            ("rest_api"@, JsonModel::Object(
              seq![
                ("cors_enabled"@, JsonModel::Bool(false)),
                ("enabled"@, JsonModel::Bool(true)),
                ("port"@, JsonModel::Number(NumberModel::PosInt(8080))),
              ],
            )),
          ],
        )),
        ("node"@, JsonModel::Object(
          seq![
            ("bind_address"@, JsonModel::Str("0.0.0.0"@)),
            ("node_id"@, JsonModel::Str("prod-node-001"@)),
            ("port"@, JsonModel::Number(NumberModel::PosInt(8080))),
          ],
        )),
        ("observability"@, JsonModel::Object(
          seq![
            ("logging"@, JsonModel::Object(
              seq![
                ("file_output"@, JsonModel::Str("/var/log/aerolithsdb/aerolithsdb.log"@)),
                ("level"@, JsonModel::Str("info"@)),
                ("structured"@, JsonModel::Bool(true)),
              ],
            )),
            ("tracing"@, JsonModel::Object(
              seq![
                ("enabled"@, JsonModel::Bool(true)),
                ("jaeger_endpoint"@, JsonModel::Str("http://jaeger:14268/api/traces"@)),
              ],
            )),
          ],
        )),
        ("security"@, JsonModel::Object(
          seq![
            ("audit_level"@, JsonModel::Str("Full"@)),
            ("encryption_algorithm"@, JsonModel::Str("XChaCha20Poly1305"@)),
            ("zero_trust"@, JsonModel::Bool(true)),
          ],
        )),
        ("storage"@, JsonModel::Object(
          seq![
            ("data_dir"@, JsonModel::Str("/var/lib/aerolithsdb"@)),
            ("replication_factor"@, JsonModel::Number(NumberModel::PosInt(3))),
            ("sharding_strategy"@, JsonModel::Str("ConsistentHash"@)),
          ],
        )),
      ],
    )
}

/// The production configuration template.
pub fn generate_production_config() -> (config: JsonValue)
    ensures
        config.model() == production_template(),
{
    let mut o1 = no_members();
    let mut o2 = no_members();
    let mut o3 = no_members();
    push_member(&mut o3, "enabled", JsonValue::Bool(true));
    push_member(&mut o3, "port", uint(8082));
    assert(members_model(o3@) =~= production_template()->Object_0[0].1->Object_0[0].1->Object_0);
    let o3 = object(o3);
    push_member(&mut o2, "grpc_api", o3);
    let mut o4 = no_members();
    push_member(&mut o4, "cors_enabled", JsonValue::Bool(false));
    push_member(&mut o4, "enabled", JsonValue::Bool(true));
    push_member(&mut o4, "port", uint(8080));
    assert(members_model(o4@) =~= production_template()->Object_0[0].1->Object_0[1].1->Object_0);
    let o4 = object(o4);
    push_member(&mut o2, "rest_api", o4);
    assert(members_model(o2@) =~= production_template()->Object_0[0].1->Object_0);
    let o2 = object(o2);
    push_member(&mut o1, "api", o2);
    let mut o5 = no_members();
    push_member(&mut o5, "bind_address", text("0.0.0.0"));
    push_member(&mut o5, "node_id", text("prod-node-001"));
    push_member(&mut o5, "port", uint(8080));
    assert(members_model(o5@) =~= production_template()->Object_0[1].1->Object_0);
    let o5 = object(o5);
    push_member(&mut o1, "node", o5);
    let mut o6 = no_members();
    let mut o7 = no_members();
    push_member(&mut o7, "file_output", text("/var/log/aerolithsdb/aerolithsdb.log"));
    push_member(&mut o7, "level", text("info"));
    push_member(&mut o7, "structured", JsonValue::Bool(true));
    assert(members_model(o7@) =~= production_template()->Object_0[2].1->Object_0[0].1->Object_0);
    let o7 = object(o7);
    push_member(&mut o6, "logging", o7);
    let mut o8 = no_members();
    push_member(&mut o8, "enabled", JsonValue::Bool(true));
    push_member(&mut o8, "jaeger_endpoint", text("http://jaeger:14268/api/traces"));
    assert(members_model(o8@) =~= production_template()->Object_0[2].1->Object_0[1].1->Object_0);
    let o8 = object(o8);
    push_member(&mut o6, "tracing", o8);
    assert(members_model(o6@) =~= production_template()->Object_0[2].1->Object_0);
    let o6 = object(o6);
    push_member(&mut o1, "observability", o6);
    let mut o9 = no_members();
    push_member(&mut o9, "audit_level", text("Full"));
    push_member(&mut o9, "encryption_algorithm", text("XChaCha20Poly1305"));
    push_member(&mut o9, "zero_trust", JsonValue::Bool(true));
    assert(members_model(o9@) =~= production_template()->Object_0[3].1->Object_0);
    let o9 = object(o9);
    push_member(&mut o1, "security", o9);
    let mut o10 = no_members();
    push_member(&mut o10, "data_dir", text("/var/lib/aerolithsdb"));
    push_member(&mut o10, "replication_factor", uint(3));
    push_member(&mut o10, "sharding_strategy", text("ConsistentHash"));
    assert(members_model(o10@) =~= production_template()->Object_0[4].1->Object_0);
    let o10 = object(o10);
    push_member(&mut o1, "storage", o10);
    assert(members_model(o1@) =~= production_template()->Object_0);
    let o1 = object(o1);
    o1
}

/// The cluster template: networking, Raft consensus and replicated storage.
pub open spec fn cluster_template() -> JsonModel {
    JsonModel::Object(
      seq![
        ("api"@, JsonModel::Object(
          seq![
            ("grpc_api"@, JsonModel::Object(
              seq![
                ("enabled"@, JsonModel::Bool(true)),
                ("port"@, JsonModel::Number(NumberModel::PosInt(8082))),
              ],
            )),
            ("rest_api"@, JsonModel::Object(
              seq![
                ("cors_enabled"@, JsonModel::Bool(false)),
                ("enabled"@, JsonModel::Bool(true)),
                ("port"@, JsonModel::Number(NumberModel::PosInt(8080))),
              ],
            )),
          ],
        )),
        ("consensus"@, JsonModel::Object(
          seq![
            ("algorithm"@, JsonModel::Str("Raft"@)),
            ("election_timeout_ms"@, JsonModel::Number(NumberModel::PosInt(5000))),
            ("heartbeat_interval_ms"@, JsonModel::Number(NumberModel::PosInt(1000))),
          ],
        )),
        ("network"@, JsonModel::Object(
          seq![
            ("cluster_name"@, JsonModel::Str("aerolithsdb-cluster"@)),
            ("gossip_port"@, JsonModel::Number(NumberModel::PosInt(8081))),
            ("max_peers"@, JsonModel::Number(NumberModel::PosInt(100))),
            ("seed_nodes"@, JsonModel::Array(seq![JsonModel::Str("10.0.1.100:8080"@), JsonModel::Str("10.0.1.101:8080"@)])),
          ],
        )),
        ("node"@, JsonModel::Object(
          seq![
            ("bind_address"@, JsonModel::Str("0.0.0.0"@)),
            ("node_id"@, JsonModel::Str("cluster-node-001"@)),
            ("port"@, JsonModel::Number(NumberModel::PosInt(8080))),
          ],
        )),
        ("security"@, JsonModel::Object(
          seq![
            ("audit_level"@, JsonModel::Str("Full"@)),
            ("encryption_algorithm"@, JsonModel::Str("XChaCha20Poly1305"@)),
            ("zero_trust"@, JsonModel::Bool(true)),
          ],
        )),
        ("storage"@, JsonModel::Object(
          seq![
            ("data_dir"@, JsonModel::Str("/var/lib/aerolithsdb"@)),
            ("replication_factor"@, JsonModel::Number(NumberModel::PosInt(3))),
            ("sharding_strategy"@, JsonModel::Str("ConsistentHash"@)),
          ],
        )),
      ],
    )
}

/// The cluster configuration template.
pub fn generate_cluster_config() -> (config: JsonValue)
    ensures
        config.model() == cluster_template(),
{
    let mut o1 = no_members();
    let mut o2 = no_members();
    let mut o3 = no_members();
    push_member(&mut o3, "enabled", JsonValue::Bool(true));
    push_member(&mut o3, "port", uint(8082));
    assert(members_model(o3@) =~= cluster_template()->Object_0[0].1->Object_0[0].1->Object_0);
    let o3 = object(o3);
    push_member(&mut o2, "grpc_api", o3);
    let mut o4 = no_members();
    push_member(&mut o4, "cors_enabled", JsonValue::Bool(false));
    push_member(&mut o4, "enabled", JsonValue::Bool(true));
    push_member(&mut o4, "port", uint(8080));
    assert(members_model(o4@) =~= cluster_template()->Object_0[0].1->Object_0[1].1->Object_0);
    let o4 = object(o4);
    push_member(&mut o2, "rest_api", o4);
    assert(members_model(o2@) =~= cluster_template()->Object_0[0].1->Object_0);
    let o2 = object(o2);
    push_member(&mut o1, "api", o2);
    let mut o5 = no_members();
    push_member(&mut o5, "algorithm", text("Raft"));
    push_member(&mut o5, "election_timeout_ms", uint(5000));
    push_member(&mut o5, "heartbeat_interval_ms", uint(1000));
    assert(members_model(o5@) =~= cluster_template()->Object_0[1].1->Object_0);
    let o5 = object(o5);
    push_member(&mut o1, "consensus", o5);
    let mut o6 = no_members();
    push_member(&mut o6, "cluster_name", text("aerolithsdb-cluster"));
    push_member(&mut o6, "gossip_port", uint(8081));
    push_member(&mut o6, "max_peers", uint(100));
    let a7 = vec![text("10.0.1.100:8080"), text("10.0.1.101:8080")];
    assert(items_model(a7@) =~= cluster_template()->Object_0[2].1->Object_0[3].1->Array_0);
    let a7 = array(a7);
    push_member(&mut o6, "seed_nodes", a7);
    assert(members_model(o6@) =~= cluster_template()->Object_0[2].1->Object_0);
    let o6 = object(o6);
    push_member(&mut o1, "network", o6);
    let mut o8 = no_members();
    push_member(&mut o8, "bind_address", text("0.0.0.0"));
    push_member(&mut o8, "node_id", text("cluster-node-001"));
    push_member(&mut o8, "port", uint(8080));
    assert(members_model(o8@) =~= cluster_template()->Object_0[3].1->Object_0);
    let o8 = object(o8);
    push_member(&mut o1, "node", o8);
    let mut o9 = no_members();
    push_member(&mut o9, "audit_level", text("Full"));
    push_member(&mut o9, "encryption_algorithm", text("XChaCha20Poly1305"));
    push_member(&mut o9, "zero_trust", JsonValue::Bool(true));
    assert(members_model(o9@) =~= cluster_template()->Object_0[4].1->Object_0);
    let o9 = object(o9);
    push_member(&mut o1, "security", o9);
    let mut o10 = no_members();
    push_member(&mut o10, "data_dir", text("/var/lib/aerolithsdb"));
    push_member(&mut o10, "replication_factor", uint(3));
    push_member(&mut o10, "sharding_strategy", text("ConsistentHash"));
    assert(members_model(o10@) =~= cluster_template()->Object_0[5].1->Object_0);
    let o10 = object(o10);
    push_member(&mut o1, "storage", o10);
    assert(members_model(o1@) =~= cluster_template()->Object_0);
    let o1 = object(o1);
    o1
}

/// The security template: TLS, authentication and authorization.
pub open spec fn security_template() -> JsonModel {
    JsonModel::Object(
      seq![
        ("security"@, JsonModel::Object(
          seq![
            ("audit_level"@, JsonModel::Str("Full"@)),
            ("authentication"@, JsonModel::Object(
              seq![
                ("enabled"@, JsonModel::Bool(true)),
                ("jwt_secret"@, JsonModel::Str("${JWT_SECRET}"@)),
                ("method"@, JsonModel::Str("jwt"@)),
                ("token_expiry"@, JsonModel::Str("24h"@)),
              ],
            )),
            ("authorization"@, JsonModel::Object(
              seq![
                ("default_policy"@, JsonModel::Str("deny"@)),
                ("enabled"@, JsonModel::Bool(true)),
                ("rbac_enabled"@, JsonModel::Bool(true)),
              ],
            )),
            ("encryption_algorithm"@, JsonModel::Str("XChaCha20Poly1305"@)),
            ("tls"@, JsonModel::Object(
              seq![
                ("ca_file"@, JsonModel::Str("/etc/aerolithsdb/certs/ca.crt"@)),
                ("cert_file"@, JsonModel::Str("/etc/aerolithsdb/certs/server.crt"@)),
                ("enabled"@, JsonModel::Bool(true)),
                ("key_file"@, JsonModel::Str("/etc/aerolithsdb/certs/server.key"@)),
              ],
            )),
            ("zero_trust"@, JsonModel::Bool(true)),
          ],
        )),
      ],
    )
}

/// The security configuration template.
pub fn generate_security_config() -> (config: JsonValue)
    ensures
        config.model() == security_template(),
{
    let mut o1 = no_members();
    let mut o2 = no_members();
    push_member(&mut o2, "audit_level", text("Full"));
    let mut o3 = no_members();
    push_member(&mut o3, "enabled", JsonValue::Bool(true));
    push_member(&mut o3, "jwt_secret", text("${JWT_SECRET}"));
    push_member(&mut o3, "method", text("jwt"));
    push_member(&mut o3, "token_expiry", text("24h"));
    assert(members_model(o3@) =~= security_template()->Object_0[0].1->Object_0[1].1->Object_0);
    let o3 = object(o3);
    push_member(&mut o2, "authentication", o3);
    let mut o4 = no_members();
    push_member(&mut o4, "default_policy", text("deny"));
    push_member(&mut o4, "enabled", JsonValue::Bool(true));
    push_member(&mut o4, "rbac_enabled", JsonValue::Bool(true));
    assert(members_model(o4@) =~= security_template()->Object_0[0].1->Object_0[2].1->Object_0);
    let o4 = object(o4);
    push_member(&mut o2, "authorization", o4);
    push_member(&mut o2, "encryption_algorithm", text("XChaCha20Poly1305"));
    let mut o5 = no_members();
    push_member(&mut o5, "ca_file", text("/etc/aerolithsdb/certs/ca.crt"));
    push_member(&mut o5, "cert_file", text("/etc/aerolithsdb/certs/server.crt"));
    push_member(&mut o5, "enabled", JsonValue::Bool(true));
    push_member(&mut o5, "key_file", text("/etc/aerolithsdb/certs/server.key"));
    assert(members_model(o5@) =~= security_template()->Object_0[0].1->Object_0[4].1->Object_0);
    let o5 = object(o5);
    push_member(&mut o2, "tls", o5);
    push_member(&mut o2, "zero_trust", JsonValue::Bool(true));
    assert(members_model(o2@) =~= security_template()->Object_0[0].1->Object_0);
    let o2 = object(o2);
    push_member(&mut o1, "security", o2);
    assert(members_model(o1@) =~= security_template()->Object_0);
    let o1 = object(o1);
    o1
}

/// The template that a name asks for.
pub open spec fn template_spec(name: Seq<char>) -> Option<JsonModel> {
    if name == "basic"@ {
        Some(basic_template())
    } else if name == "development"@ {
        Some(development_template())
    } else if name == "production"@ {
        Some(production_template())
    } else if name == "cluster"@ {
        Some(cluster_template())
    } else if name == "security"@ {
        Some(security_template())
    } else {
        None
    }
}

/// The template that a name asks for; nothing for an unknown template type.
pub fn template_by_name(name: &str) -> (r: Option<JsonValue>)
    ensures
        match r {
            Some(v) => template_spec(name@) == Some(v.model()),
            None => template_spec(name@) is None,
        },
{
    if str_equal(name, "basic") {
        Some(generate_basic_config())
    } else if str_equal(name, "development") {
        Some(generate_development_config())
    } else if str_equal(name, "production") {
        Some(generate_production_config())
    } else if str_equal(name, "cluster") {
        Some(generate_cluster_config())
    } else if str_equal(name, "security") {
        Some(generate_security_config())
    } else {
        None
    }
}

/// The members kept by a component filter: each named component that the
/// configuration has, put in sorted place as a map insertion does.
pub open spec fn filtered_members(config: JsonModel, components: Seq<Seq<char>>) -> Seq<(Seq<char>, JsonModel)>
    decreases components.len(),
{
    if components.len() == 0 {
        Seq::empty()
    } else {
        let kept = filtered_members(config, components.drop_last());
        match lookup(config, components.last()) {
            Some(v) => inserted(kept, components.last(), v),
            None => kept,
        }
    }
}

/// The configuration reduced to the named components (an empty object when it is
/// not an object, or has none of them).
pub fn filter_config_by_components(config: &JsonValue, components: &Vec<String>) -> (r: JsonValue)
    ensures
        r.model() == JsonModel::Object(filtered_members(config.model(), strings_view(components@))),
{
    let ghost names = strings_view(components@);
    let mut kept = no_members();
    let mut i: usize = 0;
    while i < components.len()
        invariant
            i <= components@.len(),
            names == strings_view(components@),
            members_model(kept@) == filtered_members(config.model(), names.take(i as int)),
        decreases components@.len() - i,
    {
        assert(names.take((i + 1) as int).drop_last() =~= names.take(i as int));
        assert(names.take((i + 1) as int).last() == components@[i as int]@);
        match config.get(components[i].as_str()) {
            Some(v) => insert_member(&mut kept, components[i].clone(), v.copy()),
            None => {},
        }
        i = i + 1;
    }
    assert(names.take(components@.len() as int) =~= names);
    object(kept)
}

/// One section of a configuration, when it has it.
pub fn filter_config_by_section(config: &JsonValue, section: &str) -> (r: Option<JsonValue>)
    ensures
        match r {
            Some(v) => lookup(config.model(), section@) == Some(v.model()),
            None => lookup(config.model(), section@) is None,
        },
{
    match config.get(section) {
        Some(v) => Some(v.copy()),
        None => None,
    }
}

/// Whether a key names a secret: lower-cased, it contains `password`, `secret`,
/// `key`, `token` or `cert`.
pub open spec fn sensitive_key(key: Seq<char>) -> bool {
    let l = lower_text(key);
    contains_seq(l, "password"@) || contains_seq(l, "secret"@) || contains_seq(l, "key"@)
        || contains_seq(l, "token"@) || contains_seq(l, "cert"@)
}

/// Whether a key names a secret.
pub fn is_sensitive_key(key: &str) -> (b: bool)
    ensures
        b == sensitive_key(key@),
{
    let l = to_lower(key);
    let l = l.as_str();
    str_contains(l, "password") || str_contains(l, "secret") || str_contains(l, "key") || str_contains(
        l,
        "token",
    ) || str_contains(l, "cert")
}

/// The placeholder that replaces a secret.
pub open spec fn masked_text() -> Seq<char> {
    "***MASKED***"@
}

/// A configuration with secrets hidden wherever they are nested: in every object
/// reached through objects and arrays, the value of each secret-named member
/// becomes the placeholder.
pub open spec fn masked(v: JsonModel) -> JsonModel
    decreases v,
{
    match v {
        JsonModel::Object(ms) => JsonModel::Object(masked_members(ms)),
        JsonModel::Array(items) => JsonModel::Array(masked_items(items)),
        _ => v,
    }
}

/// The items of an array with secrets hidden.
pub open spec fn masked_items(items: Seq<JsonModel>) -> Seq<JsonModel>
    decreases items,
{
    Seq::new(items.len(), |i: int| if 0 <= i < items.len() { masked(items[i]) } else { JsonModel::Null })
}

/// The members of an object with secrets hidden.
pub open spec fn masked_members(ms: Seq<(Seq<char>, JsonModel)>) -> Seq<(Seq<char>, JsonModel)>
    decreases ms,
{
    Seq::new(
        ms.len(),
        |i: int|
            if 0 <= i < ms.len() {
                (ms[i].0, if sensitive_key(ms[i].0) {
                    JsonModel::Str(masked_text())
                } else {
                    masked(ms[i].1)
                })
            } else {
                (Seq::empty(), JsonModel::Null)
            },
    )
}

/// The value with secrets hidden.
pub fn mask_value(v: &JsonValue) -> (r: JsonValue)
    ensures
        r.model() == masked(v.model()),
    decreases v,
{
    match v {
        JsonValue::Object(members) => {
            let ghost ms = v.model()->Object_0;
            let mut out: Vec<(String, JsonValue)> = Vec::new();
            let mut i: usize = 0;
            while i < members.len()
                invariant
                    i <= members@.len(),
                    *v == JsonValue::Object(*members),
                    ms == v.model()->Object_0,
                    ms.len() == members@.len(),
                    out@.len() == i,
                    forall|k: int|
                        0 <= k < i ==> (#[trigger] out@[k]).0@ == ms[k].0 && out@[k].1.model() == masked_members(
                            ms,
                        )[k].1,
                decreases members@.len() - i,
            {
                assert(ms[i as int] == (members@[i as int].0@, members@[i as int].1.model()));
                assert(decreases_to!(*v => v->Object_0));
                assert(decreases_to!(*members => members@));
                assert(decreases_to!(members@ => members@[i as int]));
                assert(decreases_to!(members@[i as int] => members@[i as int].1));
                let value = if is_sensitive_key(members[i].0.as_str()) {
                    text("***MASKED***")
                } else {
                    mask_value(&members[i].1)
                };
                let ghost before = out@;
                out.push((members[i].0.clone(), value));
                assert(forall|k: int| 0 <= k < i ==> out@[k] == before[k]);
                i = i + 1;
            }
            let r = JsonValue::Object(out);
            assert(r.model()->Object_0 =~= masked_members(ms));
            r
        },
        JsonValue::Array(items) => {
            let ghost xs = v.model()->Array_0;
            let mut out: Vec<JsonValue> = Vec::new();
            let mut i: usize = 0;
            while i < items.len()
                invariant
                    i <= items@.len(),
                    *v == JsonValue::Array(*items),
                    xs == v.model()->Array_0,
                    xs.len() == items@.len(),
                    out@.len() == i,
                    forall|k: int| 0 <= k < i ==> (#[trigger] out@[k]).model() == masked_items(xs)[k],
                decreases items@.len() - i,
            {
                assert(xs[i as int] == items@[i as int].model());
                assert(decreases_to!(*v => v->Array_0));
                assert(decreases_to!(*items => items@));
                assert(decreases_to!(items@ => items@[i as int]));
                let value = mask_value(&items[i]);
                out.push(value);
                i = i + 1;
            }
            let r = JsonValue::Array(out);
            assert(r.model()->Array_0 =~= masked_items(xs));
            r
        },
        JsonValue::Null => JsonValue::Null,
        JsonValue::Bool(b) => JsonValue::Bool(*b),
        _ => v.copy(),
    }
}

/// A configuration with its secrets hidden.
pub fn mask_sensitive_values(config: JsonValue) -> (r: JsonValue)
    ensures
        r.model() == masked(config.model()),
{
    mask_value(&config)
}

/// Hiding secrets twice hides no more than hiding them once.
pub proof fn lemma_mask_idempotent(v: JsonModel)
    ensures
        masked(masked(v)) == masked(v),
    decreases v,
{
    match v {
        JsonModel::Object(ms) => {
            let once = masked_members(ms);
            assert forall|i: int| 0 <= i < ms.len() implies #[trigger] masked_members(once)[i]
                == once[i] by {
                if !sensitive_key(ms[i].0) {
                    assert(decreases_to!(v => ms));
                    assert(decreases_to!(ms => ms[i]));
                    assert(decreases_to!(ms[i] => ms[i].1));
                    lemma_mask_idempotent(ms[i].1);
                }
            }
            assert(masked_members(once) =~= once);
        },
        JsonModel::Array(items) => {
            let once = masked_items(items);
            assert forall|i: int| 0 <= i < items.len() implies #[trigger] masked_items(once)[i]
                == once[i] by {
                assert(decreases_to!(v => items));
                assert(decreases_to!(items => items[i]));
                lemma_mask_idempotent(items[i]);
            }
            assert(masked_items(once) =~= once);
        },
        _ => {},
    }
}

/// The name of a setting's environment variable: the parent's name and an
/// underscore, or the `aerolithSDB_` prefix at the top, then the key in upper case.
pub open spec fn env_name(prefix: Seq<char>, key: Seq<char>) -> Seq<char> {
    if prefix.len() == 0 {
        "aerolithSDB_"@ + upper_text(key)
    } else {
        prefix + seq!['_'] + upper_text(key)
    }
}

/// `NAME=value` lines for every string, number and boolean setting, found
/// depth-first through nested objects; other values give none.
pub open spec fn env_lines(prefix: Seq<char>, v: JsonModel) -> Seq<Seq<char>>
    decreases v,
{
    match v {
        JsonModel::Object(ms) => env_parts(prefix, ms).flatten(),
        JsonModel::Str(s) => seq![prefix + seq!['='] + s],
        JsonModel::Number(n) => seq![prefix + seq!['='] + number_text(n)],
        JsonModel::Bool(b) => seq![prefix + seq!['='] + if b { "true"@ } else { "false"@ }],
        _ => Seq::empty(),
    }
}

/// The lines of each member of an object, member by member.
pub open spec fn env_parts(prefix: Seq<char>, ms: Seq<(Seq<char>, JsonModel)>) -> Seq<Seq<Seq<char>>>
    decreases ms,
{
    Seq::new(
        ms.len(),
        |i: int|
            if 0 <= i < ms.len() {
                env_lines(env_name(prefix, ms[i].0), ms[i].1)
            } else {
                Seq::empty()
            },
    )
}

fn env_name_of(prefix: &str, key: &str) -> (n: String)
    ensures
        n@ == env_name(prefix@, key@),
{
    let up = to_upper(key);
    if prefix.unicode_len() == 0 {
        concat("aerolithSDB_", up.as_str())
    } else {
        let mut n = owned(prefix);
        push_char(&mut n, '_');
        push_str(&mut n, up.as_str());
        n
    }
}

fn append_env_lines(prefix: &str, v: &JsonValue, out: &mut Vec<String>)
    ensures
        strings_view(final(out)@) == strings_view(old(out)@) + env_lines(prefix@, v.model()),
    decreases v,
{
    match v {
        JsonValue::Object(members) => {
            let ghost ms = v.model()->Object_0;
            let ghost parts = env_parts(prefix@, ms);
            let mut i: usize = 0;
            while i < members.len()
                invariant
                    i <= members@.len(),
                    *v == JsonValue::Object(*members),
                    ms == v.model()->Object_0,
                    ms.len() == members@.len(),
                    parts == env_parts(prefix@, ms),
                    strings_view(out@) == strings_view(old(out)@) + parts.take(i as int).flatten(),
                decreases members@.len() - i,
            {
                assert(ms[i as int] == (members@[i as int].0@, members@[i as int].1.model()));
                assert(decreases_to!(*v => v->Object_0));
                assert(decreases_to!(*members => members@));
                assert(decreases_to!(members@ => members@[i as int]));
                assert(decreases_to!(members@[i as int] => members@[i as int].1));
                let name = env_name_of(prefix, members[i].0.as_str());
                append_env_lines(name.as_str(), &members[i].1, out);
                proof {
                    assert(parts.take((i + 1) as int) =~= parts.take(i as int).push(parts[i as int]));
                    parts.take(i as int).lemma_flatten_push(parts[i as int]);
                }
                i = i + 1;
            }
            assert(parts.take(members@.len() as int) =~= parts);
        },
        JsonValue::Str(t) => {
            let mut line = owned(prefix);
            push_char(&mut line, '=');
            push_str(&mut line, t.as_str());
            assert(line@ =~= env_lines(prefix@, v.model())[0]);
            push_message(out, line);
        },
        JsonValue::Number(n) => {
            let mut line = owned(prefix);
            push_char(&mut line, '=');
            push_number(&mut line, n);
            assert(line@ =~= env_lines(prefix@, v.model())[0]);
            push_message(out, line);
        },
        JsonValue::Bool(b) => {
            let mut line = owned(prefix);
            push_char(&mut line, '=');
            push_str(&mut line, if *b { "true" } else { "false" });
            assert(line@ =~= env_lines(prefix@, v.model())[0]);
            push_message(out, line);
        },
        _ => {
            assert(strings_view(out@) =~= strings_view(old(out)@) + env_lines(prefix@, v.model()));
        },
    }
}

/// The configuration as environment-variable assignments, one per line.
pub fn generate_env_format(config: &JsonValue) -> (s: String)
    ensures
        s@ == join_seq(env_lines(Seq::empty(), config.model()), "\n"@),
{
    let mut lines: Vec<String> = Vec::new();
    let empty = String::new();
    append_env_lines(empty.as_str(), config, &mut lines);
    assert(strings_view(lines@) =~= env_lines(Seq::empty(), config.model()));
    join_strings(&lines, "\n")
}

/// A text padded with spaces to at least 30 characters (`{:<30}`).
pub open spec fn pad30(s: Seq<char>) -> Seq<char> {
    if s.len() >= 30 {
        s
    } else {
        s + Seq::new((30 - s.len()) as nat, |i: int| ' ')
    }
}

/// How the table shows a value: strings bare, numbers and booleans as written,
/// arrays and objects by their size.
pub open spec fn table_value_text(v: JsonModel) -> Seq<char> {
    match v {
        JsonModel::Str(s) => s,
        JsonModel::Number(n) => number_text(n),
        JsonModel::Bool(b) => if b {
            "true"@
        } else {
            "false"@
        },
        JsonModel::Null => "null"@,
        JsonModel::Array(items) => seq!['['] + decimal(items.len()) + " items]"@,
        JsonModel::Object(ms) => seq!['{'] + decimal(ms.len()) + "} fields"@,
    }
}

/// The table lines of a setting: one `path  value` line per setting that is not an
/// object, found depth-first and named by dotted path.
pub open spec fn table_lines(prefix: Seq<char>, v: JsonModel) -> Seq<Seq<char>>
    decreases v,
{
    match v {
        JsonModel::Object(ms) => table_parts(prefix, ms).flatten(),
        _ => seq![pad30(prefix) + seq![' '] + table_value_text(v) + seq!['\n']],
    }
}

/// The table lines of each member of an object, member by member.
pub open spec fn table_parts(prefix: Seq<char>, ms: Seq<(Seq<char>, JsonModel)>) -> Seq<Seq<Seq<char>>>
    decreases ms,
{
    Seq::new(
        ms.len(),
        |i: int|
            if 0 <= i < ms.len() {
                table_lines(child_path(prefix, ms[i].0), ms[i].1)
            } else {
                Seq::empty()
            },
    )
}

/// The table's title.
pub open spec fn table_title() -> Seq<char> {
    "Configuration Settings\n=====================\n\n"@
}

/// Appends how the table shows a value.
pub fn push_table_value(s: &mut String, v: &JsonValue)
    ensures
        final(s)@ == old(s)@ + table_value_text(v.model()),
{
    match v {
        JsonValue::Str(t) => push_str(s, t.as_str()),
        JsonValue::Number(n) => push_number(s, n),
        JsonValue::Bool(b) => push_str(s, if *b { "true" } else { "false" }),
        JsonValue::Null => push_str(s, "null"),
        JsonValue::Array(items) => {
            push_char(s, '[');
            push_decimal(s, items.len() as u64);
            push_str(s, " items]");
            assert(v.model()->Array_0.len() == items@.len());
            assert(final(s)@ =~= old(s)@ + table_value_text(v.model()));
        },
        JsonValue::Object(ms) => {
            push_char(s, '{');
            push_decimal(s, ms.len() as u64);
            push_str(s, "} fields");
            assert(v.model()->Object_0.len() == ms@.len());
            assert(final(s)@ =~= old(s)@ + table_value_text(v.model()));
        },
    }
}

fn push_padded(s: &mut String, t: &str)
    ensures
        final(s)@ == old(s)@ + pad30(t@),
{
    push_str(s, t);
    let n = t.unicode_len();
    let mut k: usize = n;
    while k < 30
        invariant
            n == t@.len(),
            n <= k,
            k <= 30 || k == n,
            s@ == old(s)@ + t@ + Seq::new((k - n) as nat, |i: int| ' '),
        decreases 30 - k,
    {
        push_char(s, ' ');
        k = k + 1;
        assert(Seq::new((k - n) as nat, |i: int| ' ') =~= Seq::new((k - 1 - n) as nat, |i: int| ' ').push(' '));
    }
    if n >= 30 {
        assert(Seq::new((k - n) as nat, |i: int| ' ') =~= Seq::<char>::empty());
    }
    assert(s@ =~= old(s)@ + pad30(t@));
}

fn append_table_lines(prefix: &str, v: &JsonValue, out: &mut String)
    ensures
        final(out)@ == old(out)@ + table_lines(prefix@, v.model()).flatten(),
    decreases v,
{
    match v {
        JsonValue::Object(members) => {
            let ghost ms = v.model()->Object_0;
            let ghost parts = table_parts(prefix@, ms);
            let mut i: usize = 0;
            while i < members.len()
                invariant
                    i <= members@.len(),
                    *v == JsonValue::Object(*members),
                    ms == v.model()->Object_0,
                    ms.len() == members@.len(),
                    parts == table_parts(prefix@, ms),
                    out@ == old(out)@ + parts.take(i as int).flatten().flatten(),
                decreases members@.len() - i,
            {
                assert(ms[i as int] == (members@[i as int].0@, members@[i as int].1.model()));
                assert(decreases_to!(*v => v->Object_0));
                assert(decreases_to!(*members => members@));
                assert(decreases_to!(members@ => members@[i as int]));
                assert(decreases_to!(members@[i as int] => members@[i as int].1));
                let path = crate::stats::child_path_text(prefix, members[i].0.as_str());
                append_table_lines(path.as_str(), &members[i].1, out);
                proof {
                    assert(parts.take((i + 1) as int) =~= parts.take(i as int).push(parts[i as int]));
                    parts.take(i as int).lemma_flatten_push(parts[i as int]);
                    vstd::seq_lib::lemma_flatten_concat(parts.take(i as int).flatten(), parts[i as int]);
                }
                i = i + 1;
            }
            assert(parts.take(members@.len() as int) =~= parts);
        },
        _ => {
            let ghost before = out@;
            push_padded(out, prefix);
            push_char(out, ' ');
            push_table_value(out, v);
            push_char(out, '\n');
            let ghost line = pad30(prefix@) + seq![' '] + table_value_text(v.model()) + seq!['\n'];
            assert(seq![line].flatten() =~= line) by {
                seq![line].lemma_flatten_one_element();
            }
            assert(out@ =~= before + line);
        },
    }
}

/// The configuration as a two-column table of dotted setting names and values.
pub fn format_config_as_table(config: &JsonValue) -> (table: String)
    ensures
        table@ == table_title() + table_lines(Seq::empty(), config.model()).flatten(),
{
    let mut table = owned("Configuration Settings\n=====================\n\n");
    let empty = String::new();
    append_table_lines(empty.as_str(), config, &mut table);
    assert(empty@ =~= Seq::<char>::empty());
    table
}

/// The output forms of the configuration commands.
#[derive(Clone, Copy, Debug, PartialEq, Eq, Structural)]
pub enum ConfigOutput {
    Json,
    Yaml,
    Toml,
    Env,
    Table,
}

/// Why a configuration command stops.
#[derive(Debug, PartialEq, Eq, Structural)]
pub enum ConfigError {
    /// No template has the requested name.
    UnknownTemplate,
    /// The command cannot write the requested format.
    UnsupportedFormat,
    /// The configuration has no section of the requested name.
    SectionNotFound,
    /// Validation was asked for neither a file nor the server's configuration.
    NoValidationTarget,
}

/// The formats that `config-generate` writes.
pub open spec fn generate_output_spec(name: Seq<char>) -> Option<ConfigOutput> {
    if name == "json"@ {
        Some(ConfigOutput::Json)
    } else if name == "yaml"@ {
        Some(ConfigOutput::Yaml)
    } else if name == "toml"@ {
        Some(ConfigOutput::Toml)
    } else if name == "env"@ {
        Some(ConfigOutput::Env)
    } else {
        None
    }
}

/// The formats that `config-show` writes.
pub open spec fn show_output_spec(name: Seq<char>) -> Option<ConfigOutput> {
    if name == "json"@ {
        Some(ConfigOutput::Json)
    } else if name == "yaml"@ {
        Some(ConfigOutput::Yaml)
    } else if name == "table"@ {
        Some(ConfigOutput::Table)
    } else {
        None
    }
}

fn generate_output(name: &str) -> (r: Option<ConfigOutput>)
    ensures
        r == generate_output_spec(name@),
{
    if str_equal(name, "json") {
        Some(ConfigOutput::Json)
    } else if str_equal(name, "yaml") {
        Some(ConfigOutput::Yaml)
    } else if str_equal(name, "toml") {
        Some(ConfigOutput::Toml)
    } else if str_equal(name, "env") {
        Some(ConfigOutput::Env)
    } else {
        None
    }
}

fn show_output(name: &str) -> (r: Option<ConfigOutput>)
    ensures
        r == show_output_spec(name@),
{
    if str_equal(name, "json") {
        Some(ConfigOutput::Json)
    } else if str_equal(name, "yaml") {
        Some(ConfigOutput::Yaml)
    } else if str_equal(name, "table") {
        Some(ConfigOutput::Table)
    } else {
        None
    }
}

/// What `config-generate` writes: the template, reduced to the requested components
/// when any are named, in the requested format; the template is checked first.
pub open spec fn generated_config_spec(template: Seq<char>, components: Seq<Seq<char>>, format: Seq<char>) -> Result<
    (JsonModel, ConfigOutput),
    ConfigError,
> {
    match template_spec(template) {
        None => Err(ConfigError::UnknownTemplate),
        Some(t) => match generate_output_spec(format) {
            None => Err(ConfigError::UnsupportedFormat),
            Some(f) => Ok(
                (
                    if components.len() == 0 {
                        t
                    } else {
                        JsonModel::Object(filtered_members(t, components))
                    },
                    f,
                ),
            ),
        },
    }
}

/// The model of a prepared configuration, or why there is none.
pub open spec fn prepared_model(r: Result<(JsonValue, ConfigOutput), ConfigError>) -> Result<
    (JsonModel, ConfigOutput),
    ConfigError,
> {
    match r {
        Ok((v, f)) => Ok((v.model(), f)),
        Err(e) => Err(e),
    }
}

/// The configuration that `config-generate` writes, and in which format.
pub fn prepare_generated_config(args: &crate::args::ConfigGenerateArgs) -> (r: Result<
    (JsonValue, ConfigOutput),
    ConfigError,
>)
    ensures
        prepared_model(r) == generated_config_spec(
            args.template@,
            strings_view(args.components@),
            args.format@,
        ),
{
    let template = match template_by_name(args.template.as_str()) {
        Some(t) => t,
        None => return Err(ConfigError::UnknownTemplate),
    };
    let config = if args.components.len() == 0 {
        template
    } else {
        filter_config_by_components(&template, &args.components)
    };
    match generate_output(args.format.as_str()) {
        Some(f) => Ok((config, f)),
        None => Err(ConfigError::UnsupportedFormat),
    }
}

/// What `config-show` displays of a configuration: the requested section if one is
/// named, secrets hidden unless asked for, in the requested format.
pub open spec fn shown_config_spec(
    config: JsonModel,
    section: Option<Seq<char>>,
    show_secrets: bool,
    format: Seq<char>,
) -> Result<(JsonModel, ConfigOutput), ConfigError> {
    let part = match section {
        Some(s) => lookup(config, s),
        None => Some(config),
    };
    match part {
        None => Err(ConfigError::SectionNotFound),
        Some(p) => match show_output_spec(format) {
            None => Err(ConfigError::UnsupportedFormat),
            Some(f) => Ok(
                (
                    if show_secrets {
                        p
                    } else {
                        masked(p)
                    },
                    f,
                ),
            ),
        },
    }
}

/// The configuration that `config-show` displays, and in which format.
pub fn prepare_shown_config(config: JsonValue, args: &crate::args::ConfigShowArgs) -> (r: Result<
    (JsonValue, ConfigOutput),
    ConfigError,
>)
    ensures
        prepared_model(r) == shown_config_spec(
            config.model(),
            crate::text::opt_view(args.section),
            args.show_secrets,
            args.format@,
        ),
{
    let part = match &args.section {
        Some(s) => match filter_config_by_section(&config, s.as_str()) {
            Some(p) => p,
            None => return Err(ConfigError::SectionNotFound),
        },
        None => config,
    };
    let shown = if args.show_secrets {
        part
    } else {
        mask_sensitive_values(part)
    };
    match show_output(args.format.as_str()) {
        Some(f) => Ok((shown, f)),
        None => Err(ConfigError::UnsupportedFormat),
    }
}

/// Which configuration a validation checks.
#[derive(Debug)]
pub enum ValidationTarget {
    /// The server's own configuration.
    Server,
    /// A local file.
    File(String),
}

/// Which configuration `config-validate` checks: the server's when asked, else the
/// named file; it needs one of the two.
pub fn validation_target(args: &crate::args::ConfigValidateArgs) -> (r: Result<ValidationTarget, ConfigError>)
    ensures
        args.server_config ==> r matches Ok(ValidationTarget::Server),
        !args.server_config ==> match args.file_path {
            Some(p) => r matches Ok(ValidationTarget::File(q)) && q@ == p@,
            None => r matches Err(ConfigError::NoValidationTarget),
        },
{
    if args.server_config {
        Ok(ValidationTarget::Server)
    } else {
        match &args.file_path {
            Some(p) => Ok(ValidationTarget::File(p.clone())),
            None => Err(ConfigError::NoValidationTarget),
        }
    }
}

} // verus!

verus! {

/// A configuration's REST API port is reported exactly when it lies outside
/// 1024..=65535: the error is among the configuration's errors if and only if the
/// port is below 1024 or above 65535.
pub proof fn lemma_rest_port_checked(config: JsonModel, api: JsonModel, rest: JsonModel, port: nat)
    requires
        lookup(config, "api"@) == Some(api),
        lookup(api, "rest_api"@) == Some(rest),
        lookup(rest, "port"@) == Some(JsonModel::Number(NumberModel::PosInt(port))),
    ensures
        config_errors(config).contains("REST API port must be between 1024 and 65535"@) <==> (
        port < 1024 || port > 65535),
{
    let msg = "REST API port must be between 1024 and 65535"@;
    reveal_strlit("REST API port must be between 1024 and 65535");
    reveal_strlit("Missing required section: ");
    reveal_strlit("Node port must be between 1024 and 65535");
    reveal_strlit("Node ID must be 1-64 characters");
    reveal_strlit("Storage data_dir cannot be empty");
    let front = missing_section(config, "node"@) + missing_section(config, "storage"@)
        + missing_section(config, "api"@) + node_errors(config) + storage_errors(config);
    assert(config_errors(config) == front + api_errors(config));
    assert forall|k: int| 0 <= k < front.len() implies #[trigger] front[k] != msg by {
        assert(front[k][0] != msg[0]);
    }
    if port < 1024 || port > 65535 {
        assert(api_errors(config) == seq![msg]);
        assert(config_errors(config)[front.len() as int] == msg);
    } else {
        assert(api_errors(config) == Seq::<Seq<char>>::empty());
        assert(config_errors(config) =~= front);
    }
}


/// A node port is reported exactly when it lies outside 1024..=65535, and a missing
/// `node` section is reported as such.
pub proof fn lemma_node_port_checked(config: JsonModel, node: JsonModel, port: nat)
    ensures
        lookup(config, "node"@) == Some(node) && lookup(node, "port"@) == Some(
            JsonModel::Number(NumberModel::PosInt(port)),
        ) ==> (config_errors(config).contains("Node port must be between 1024 and 65535"@) <==> (
        port < 1024 || port > 65535)),
        lookup(config, "node"@) is None ==> config_errors(config).contains(
            "Missing required section: node"@,
        ),
{
    let msg = "Node port must be between 1024 and 65535"@;
    reveal_strlit("Node port must be between 1024 and 65535");
    reveal_strlit("Node ID must be 1-64 characters");
    reveal_strlit("Missing required section: ");
    reveal_strlit("Missing required section: node");
    reveal_strlit("node");
    reveal_strlit("Storage data_dir cannot be empty");
    reveal_strlit("REST API port must be between 1024 and 65535");
    let missing = missing_section(config, "node"@) + missing_section(config, "storage"@)
        + missing_section(config, "api"@);
    let rest = storage_errors(config) + api_errors(config);
    assert(config_errors(config) =~= missing + node_errors(config) + rest);
    if lookup(config, "node"@) is None {
        assert("Missing required section: "@ + "node"@ =~= "Missing required section: node"@);
        assert(config_errors(config)[0] == "Missing required section: node"@);
    }
    if lookup(config, "node"@) == Some(node) && lookup(node, "port"@) == Some(
        JsonModel::Number(NumberModel::PosInt(port)),
    ) {
        assert forall|k: int| 0 <= k < missing.len() implies #[trigger] missing[k] != msg by {
            assert(missing[k][0] != msg[0]);
        }
        assert forall|k: int| 0 <= k < rest.len() implies #[trigger] rest[k] != msg by {
            assert(rest[k][0] != msg[0]);
        }
        let idpart = match as_str_spec(lookup(node, "node_id"@)) {
            Some(id) => if id.len() == 0 || utf8_len(id) > 64 {
                seq!["Node ID must be 1-64 characters"@]
            } else {
                Seq::<Seq<char>>::empty()
            },
            None => Seq::<Seq<char>>::empty(),
        };
        assert forall|k: int| 0 <= k < idpart.len() implies #[trigger] idpart[k] != msg by {
            assert(idpart[k][5] != msg[5]);
        }
        if port < 1024 || port > 65535 {
            assert(node_errors(config) == seq![msg] + idpart);
            assert(config_errors(config)[missing.len() as int] == msg);
        } else {
            assert(node_errors(config) =~= idpart);
            assert(config_errors(config) =~= missing + idpart + rest);
            assert forall|k: int| 0 <= k < config_errors(config).len() implies #[trigger] config_errors(config)[k] != msg by {
                if k < missing.len() {
                } else if k < missing.len() + idpart.len() {
                    assert(config_errors(config)[k] == idpart[k - missing.len()]);
                } else {
                    assert(config_errors(config)[k] == rest[k - missing.len() - idpart.len()]);
                }
            }
        }
    }
}

} // verus!
