//! Single-document commands: the body of a store, how a fetched document is shown,
//! and the kind of a deletion.
use vstd::prelude::*;
use crate::json::{JsonModel, JsonValue, NumberModel, members_model, no_members, object, push_member, text, uint};
use crate::text::{opt_view, str_equal};

verus! {

/// How `get` shows a document.
#[derive(Clone, Copy, Debug, PartialEq, Eq, Structural)]
pub enum GetFormat {
    /// The data as compact JSON.
    Json,
    /// The data as indented JSON.
    Pretty,
    /// The data as YAML.
    Yaml,
    /// The document's ID, version and times, then its data as indented JSON.
    Detailed,
}

/// How `get` shows a document for a format name; any other name shows the details.
pub fn get_format(name: &str) -> (f: GetFormat)
    ensures
        f == if name@ == "json"@ {
            GetFormat::Json
        } else if name@ == "pretty"@ {
            GetFormat::Pretty
        } else if name@ == "yaml"@ {
            GetFormat::Yaml
        } else {
            GetFormat::Detailed
        },
{
    if str_equal(name, "json") {
        GetFormat::Json
    } else if str_equal(name, "pretty") {
        GetFormat::Pretty
    } else if str_equal(name, "yaml") {
        GetFormat::Yaml
    } else {
        GetFormat::Detailed
    }
}

/// The policy members of a store request, in key order: `encryption_policy`,
/// `replication_factor` and `retention_days`, each present only when given.
pub open spec fn policy_members(
    encryption_policy: Option<Seq<char>>,
    replication_factor: Option<u8>,
    retention_days: Option<u32>,
) -> Seq<(Seq<char>, JsonModel)> {
    (match encryption_policy {
        Some(p) => seq![("encryption_policy"@, JsonModel::Str(p))],
        None => Seq::empty(),
    }) + (match replication_factor {
        Some(f) => seq![("replication_factor"@, JsonModel::Number(NumberModel::PosInt(f as nat)))],
        None => Seq::empty(),
    }) + (match retention_days {
        Some(d) => seq![("retention_days"@, JsonModel::Number(NumberModel::PosInt(d as nat)))],
        None => Seq::empty(),
    })
}

/// The body of a store request: the document's data under `data`, then the
/// encryption, replication and retention policies that were given.
pub fn document_body(
    data: JsonValue,
    encryption_policy: &Option<String>,
    replication_factor: Option<u8>,
    retention_days: Option<u32>,
) -> (body: JsonValue)
    ensures
        body.model() == JsonModel::Object(
            seq![("data"@, data.model())] + policy_members(
                opt_view(*encryption_policy),
                replication_factor,
                retention_days,
            ),
        ),
{
    let ghost d = data.model();
    let mut m = no_members();
    push_member(&mut m, "data", data);
    let ghost m1 = members_model(m@);
    match encryption_policy {
        Some(p) => push_member(&mut m, "encryption_policy", text(p.as_str())),
        None => {},
    }
    let ghost m2 = members_model(m@);
    match replication_factor {
        Some(f) => push_member(&mut m, "replication_factor", uint(f as u64)),
        None => {},
    }
    let ghost m3 = members_model(m@);
    match retention_days {
        Some(r) => push_member(&mut m, "retention_days", uint(r as u64)),
        None => {},
    }
    assert(members_model(m@) =~= seq![("data"@, d)] + policy_members(
        opt_view(*encryption_policy),
        replication_factor,
        retention_days,
    ));
    object(m)
}

/// The kind of a deletion, as its confirmation states it.
pub fn deletion_kind(soft: bool) -> (text: &'static str)
    ensures
        text@ == if soft {
            "Soft deletion (recoverable)"@
        } else {
            "Permanent deletion"@
        },
{
    if soft {
        "Soft deletion (recoverable)"
    } else {
        "Permanent deletion"
    }
}

} // verus!
