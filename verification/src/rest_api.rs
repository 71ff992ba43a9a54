//! The REST API's own logic: how a storage failure maps to a status, which
//! identifier a result carries, and the statistics it reports.
use vstd::prelude::*;
use crate::json::{
    JsonModel, JsonValue, NumberModel, decimal_number, inserted, insert_member, lemma_lookup_after_insert,
    lemma_lookup_other_after_insert, lemma_member_index_range, lemma_member_index_snoc, lookup, member_index,
    members_model, no_members, object, push_member, text, uint,
};
use crate::text::{contains_seq, decimal, owned, push_decimal, str_contains};

verus! {

/// Why a document request fails: no such document (HTTP 404), or the storage
/// failed (HTTP 500).
#[derive(Debug, PartialEq, Eq, Structural)]
pub enum RestError {
    NotFound,
    Internal,
}

/// The status of a failed storage call, from its message: a missing document when
/// the message says so, else a failure of the service.
pub fn storage_failure(message: &str) -> (e: RestError)
    ensures
        e == if contains_seq(message@, "Document not found"@) {
            RestError::NotFound
        } else {
            RestError::Internal
        },
{
    if str_contains(message, "Document not found") {
        RestError::NotFound
    } else {
        RestError::Internal
    }
}

/// The identifier of the `index`-th result: its `id` member when that is a string,
/// else `doc_` and the index.
pub open spec fn result_id(data: JsonModel, index: nat) -> Seq<char> {
    match lookup(data, "id"@) {
        Some(JsonModel::Str(s)) => s,
        _ => "doc_"@ + decimal(index),
    }
}

/// The identifier of the `index`-th result of a query or listing.
pub fn result_document_id(data: &JsonValue, index: usize) -> (id: String)
    ensures
        id@ == result_id(data.model(), index as nat),
{
    match data.get("id") {
        Some(JsonValue::Str(s)) => s.clone(),
        _ => {
            let mut id = owned("doc_");
            push_decimal(&mut id, index as u64);
            id
        },
    }
}

/// The members `extra` put one after another into `base`, each replacing a member
/// of the same name.
pub open spec fn merged_members(
    base: Seq<(Seq<char>, JsonModel)>,
    extra: Seq<(Seq<char>, JsonModel)>,
) -> Seq<(Seq<char>, JsonModel)>
    decreases extra.len(),
{
    if extra.len() == 0 {
        base
    } else {
        let last = extra.last();
        inserted(merged_members(base, extra.drop_last()), last.0, last.1)
    }
}

/// The reported statistics: the base ones, with the query engine's own members
/// merged in when they form an object.
pub open spec fn stats_with(engine: JsonModel) -> JsonModel {
    match engine {
        JsonModel::Object(ms) => JsonModel::Object(merged_members(base_stats()->Object_0, ms)),
        _ => base_stats(),
    }
}

/// The statistics the REST API reports, given what the query engine reported.
pub fn database_stats(engine_stats: &JsonValue) -> (stats: JsonValue)
    ensures
        stats.model() == stats_with(engine_stats.model()),
{
    let base = base_stats_value();
    let extra = match engine_stats {
        JsonValue::Object(extra) => extra,
        _ => return base,
    };
    let ghost bm = base.model();
    let mut members = match base {
        JsonValue::Object(m) => {
            assert(members_model(m@) =~= bm->Object_0);
            m
        },
        _ => {
            proof {
                assert(false);
            }
            no_members()
        },
    };
    let ghost base_ms = members_model(members@);
    let ghost extra_ms = members_model(extra@);
    assert(base_ms == base_stats()->Object_0);
    assert(engine_stats.model() == JsonModel::Object(extra_ms)) by {
        assert(engine_stats.model()->Object_0 =~= extra_ms);
    }
    let mut i: usize = 0;
    while i < extra.len()
        invariant
            i <= extra@.len(),
            extra_ms == members_model(extra@),
            members_model(members@) == merged_members(base_ms, extra_ms.take(i as int)),
        decreases extra@.len() - i,
    {
        let ghost before = members_model(members@);
        let key = extra[i].0.clone();
        let value = extra[i].1.copy();
        insert_member(&mut members, key, value);
        assert(extra_ms.take((i + 1) as int).drop_last() =~= extra_ms.take(i as int));
        i = i + 1;
    }
    assert(extra_ms.take(i as int) =~= extra_ms);
    object(members)
}

/// Whether no member name occurs twice (as in a JSON object map).
pub open spec fn unique_keys(ms: Seq<(Seq<char>, JsonModel)>) -> bool {
    forall|i: int, j: int| 0 <= i < j < ms.len() ==> ms[i].0 != ms[j].0
}

/// Merging wins: after merging members with distinct names into `base`, a name
/// among them reads back their value, and any other name reads back what `base` had.
pub proof fn lemma_merged_lookup(
    base: Seq<(Seq<char>, JsonModel)>,
    extra: Seq<(Seq<char>, JsonModel)>,
    key: Seq<char>,
)
    requires
        unique_keys(extra),
    ensures
        lookup(JsonModel::Object(merged_members(base, extra)), key) == match lookup(
            JsonModel::Object(extra),
            key,
        ) {
            Some(v) => Some(v),
            None => lookup(JsonModel::Object(base), key),
        },
    decreases extra.len(),
{
    if extra.len() > 0 {
        let prev = extra.drop_last();
        let last = extra.last();
        assert(extra =~= prev.push(last));
        lemma_merged_lookup(base, prev, key);
        lemma_member_index_snoc(prev, last, key);
        lemma_member_index_range(prev, key);
        if last.0 == key {
            lemma_lookup_after_insert(merged_members(base, prev), key, last.1);
            assert(member_index(prev, key) is None) by {
                if member_index(prev, key) is Some {
                    let i = member_index(prev, key)->0;
                    assert(prev[i] == extra[i]);
                    assert(extra[i].0 != extra[extra.len() - 1].0);
                }
            }
            assert(extra[extra.len() - 1] == last);
        } else {
            lemma_lookup_other_after_insert(merged_members(base, prev), last.0, last.1, key);
            match member_index(prev, key) {
                Some(i) => {
                    assert(extra[i] == prev[i]);
                },
                None => {},
            }
        }
    } else {
        reveal(member_index);
    }
}

/// The statistics the REST API reports before the query engine's own are merged in.
pub open spec fn base_stats() -> JsonModel {
    JsonModel::Object(
        seq![
            ("cluster"@, JsonModel::Object(
                seq![
                    ("consensus_status"@, JsonModel::Str("healthy"@)),
                    ("node_count"@, JsonModel::Number(NumberModel::PosInt(3))),
                    ("replication_lag"@, JsonModel::Str("< 1ms"@)),
                ],
            )),
            ("database"@, JsonModel::Object(
                seq![
                    ("name"@, JsonModel::Str("aerolithsDB"@)),
                    ("status"@, JsonModel::Str("healthy"@)),
                    ("uptime"@, JsonModel::Str("2h 15m 32s"@)),
                    ("version"@, JsonModel::Str("1.0.0"@)),
                ],
            )),
            ("performance"@, JsonModel::Object(
                seq![
                    ("avg_query_time"@, JsonModel::Str("2.3ms"@)),
                    ("cache_hit_rate"@, JsonModel::Number(NumberModel::Float("0.89"@))),
                    ("read_ops_per_sec"@, JsonModel::Number(NumberModel::PosInt(1250))),
                    ("write_ops_per_sec"@, JsonModel::Number(NumberModel::PosInt(320))),
                ],
            )),
            ("storage"@, JsonModel::Object(
                seq![
                    ("compression_ratio"@, JsonModel::Number(NumberModel::Float("2.4"@))),
                    ("storage_tiers"@, JsonModel::Object(
                        seq![
                            ("archive"@, JsonModel::Str("128 MB"@)),
                            ("cold"@, JsonModel::Str("384 MB"@)),
                            ("hot"@, JsonModel::Str("256 MB"@)),
                            ("warm"@, JsonModel::Str("512 MB"@)),
                        ],
                    )),
                    ("total_collections"@, JsonModel::Number(NumberModel::PosInt(25))),
                    ("total_documents"@, JsonModel::Number(NumberModel::PosInt(12345))),
                    ("total_size"@, JsonModel::Str("1.2 GB"@)),
                ],
            )),
        ],
    )
}

/// The statistics the REST API reports before the query engine's own are merged in.
pub fn base_stats_value() -> (stats: JsonValue)
    ensures
        stats.model() == base_stats(),
{
    let mut o1 = no_members();
    let mut o2 = no_members();
    push_member(&mut o2, "consensus_status", text("healthy"));
    push_member(&mut o2, "node_count", uint(3));
    push_member(&mut o2, "replication_lag", text("< 1ms"));
    assert(members_model(o2@) =~= base_stats()->Object_0[0].1->Object_0);
    let o2 = object(o2);
    push_member(&mut o1, "cluster", o2);
    let mut o3 = no_members();
    push_member(&mut o3, "name", text("aerolithsDB"));
    push_member(&mut o3, "status", text("healthy"));
    push_member(&mut o3, "uptime", text("2h 15m 32s"));
    push_member(&mut o3, "version", text("1.0.0"));
    assert(members_model(o3@) =~= base_stats()->Object_0[1].1->Object_0);
    let o3 = object(o3);
    push_member(&mut o1, "database", o3);
    let mut o4 = no_members();
    push_member(&mut o4, "avg_query_time", text("2.3ms"));
    push_member(&mut o4, "cache_hit_rate", decimal_number("0.89"));
    push_member(&mut o4, "read_ops_per_sec", uint(1250));
    push_member(&mut o4, "write_ops_per_sec", uint(320));
    assert(members_model(o4@) =~= base_stats()->Object_0[2].1->Object_0);
    let o4 = object(o4);
    push_member(&mut o1, "performance", o4);
    let mut o5 = no_members();
    push_member(&mut o5, "compression_ratio", decimal_number("2.4"));
    let mut o6 = no_members();
    push_member(&mut o6, "archive", text("128 MB"));
    push_member(&mut o6, "cold", text("384 MB"));
    push_member(&mut o6, "hot", text("256 MB"));
    push_member(&mut o6, "warm", text("512 MB"));
    assert(members_model(o6@) =~= base_stats()->Object_0[3].1->Object_0[1].1->Object_0);
    let o6 = object(o6);
    push_member(&mut o5, "storage_tiers", o6);
    push_member(&mut o5, "total_collections", uint(25));
    push_member(&mut o5, "total_documents", uint(12345));
    push_member(&mut o5, "total_size", text("1.2 GB"));
    assert(members_model(o5@) =~= base_stats()->Object_0[3].1->Object_0);
    let o5 = object(o5);
    push_member(&mut o1, "storage", o5);
    assert(members_model(o1@) =~= base_stats()->Object_0);
    let o1 = object(o1);
    o1
}

} // verus!
