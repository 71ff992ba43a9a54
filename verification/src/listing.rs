//! Queries and listings: the request body of a query, the endpoints the client
//! calls, pagination, the collection filter, and the hints shown after a failure.
use vstd::prelude::*;
use std::time::Duration;
use crate::args::QueryArgs;
use crate::json::{
    JsonInputError, JsonModel, JsonNumber, JsonValue, NumberModel, insert_member, inserted,
    json_text_model, lemma_member_index_snoc, lookup, member_index, members_model, object,
    parse_json_input, push_member,
};
use crate::stats::{OutputFormat, chosen_format, choose_format};
use crate::glob::{glob_match, glob_matches};
use crate::integration::{duration_of_secs, seconds};
use crate::text::{
    concat, contains_seq, decimal, opt_view, owned, push_decimal, push_str, split_on, split_pieces,
    str_contains, str_equal, strings_view, to_chars,
};

verus! {

/// A collection as the server describes it.
#[derive(Debug)]
pub struct Collection {
    pub name: String,
    pub document_count: usize,
    pub size_bytes: u64,
    pub created_at: String,
    pub updated_at: Option<String>,
}

/// The formats of the `query` command.
pub open spec fn query_formats() -> Seq<OutputFormat> {
    seq![
        OutputFormat::Json,
        OutputFormat::Jsonl,
        OutputFormat::Csv,
        OutputFormat::Count,
        OutputFormat::Table,
    ]
}

/// The format in which `query` writes, and whether `name` was one it knows.
pub fn query_format(name: &str) -> (r: (OutputFormat, bool))
    ensures
        r == chosen_format(name@, query_formats()),
{
    let offered: &[OutputFormat] = &[
        OutputFormat::Json,
        OutputFormat::Jsonl,
        OutputFormat::Csv,
        OutputFormat::Count,
        OutputFormat::Table,
    ];
    assert(offered@ =~= query_formats());
    choose_format(name, offered)
}

/// The formats of the `list` command.
pub open spec fn list_formats() -> Seq<OutputFormat> {
    seq![OutputFormat::Json, OutputFormat::Yaml, OutputFormat::Csv, OutputFormat::Table]
}

/// The format in which `list` writes, and whether `name` was one it knows.
pub fn list_format(name: &str) -> (r: (OutputFormat, bool))
    ensures
        r == chosen_format(name@, list_formats()),
{
    let offered: &[OutputFormat] = &[
        OutputFormat::Json,
        OutputFormat::Yaml,
        OutputFormat::Csv,
        OutputFormat::Table,
    ];
    assert(offered@ =~= list_formats());
    choose_format(name, offered)
}

/// The model of an optional JSON value, null standing for none.
pub open spec fn or_null(v: Option<JsonValue>) -> JsonModel {
    match v {
        Some(x) => x.model(),
        None => JsonModel::Null,
    }
}

/// The body of a query request: the parsed filter and sort (null when absent), the
/// paging and the flags, keys in ascending order.
pub open spec fn query_body_spec(
    args: QueryArgs,
    filter: Option<JsonValue>,
    sort: Option<JsonValue>,
) -> JsonModel {
    JsonModel::Object(
        seq![
            ("explain"@, JsonModel::Bool(args.explain)),
            ("filter"@, or_null(filter)),
            ("include_metadata"@, JsonModel::Bool(args.include_metadata)),
            ("limit"@, JsonModel::Number(NumberModel::PosInt(args.limit as nat))),
            ("offset"@, JsonModel::Number(NumberModel::PosInt(args.offset as nat))),
            ("sort"@, or_null(sort)),
        ],
    )
}

/// The body of a query request.
pub fn query_body(args: &QueryArgs, filter: Option<JsonValue>, sort: Option<JsonValue>) -> (body: JsonValue)
    ensures
        body.model() == query_body_spec(*args, filter, sort),
{
    let ghost f = filter;
    let ghost s = sort;
    let mut m: Vec<(String, JsonValue)> = Vec::new();
    assert(members_model(m@) =~= Seq::empty());
    push_member(&mut m, "explain", JsonValue::Bool(args.explain));
    push_member(
        &mut m,
        "filter",
        match filter {
            Some(x) => x,
            None => JsonValue::Null,
        },
    );
    push_member(&mut m, "include_metadata", JsonValue::Bool(args.include_metadata));
    push_member(&mut m, "limit", JsonValue::Number(JsonNumber::PosInt(args.limit as u64)));
    push_member(&mut m, "offset", JsonValue::Number(JsonNumber::PosInt(args.offset as u64)));
    push_member(
        &mut m,
        "sort",
        match sort {
            Some(x) => x,
            None => JsonValue::Null,
        },
    );
    assert(members_model(m@) =~= query_body_spec(*args, f, s)->Object_0);
    object(m)
}

/// How many results lie beyond the page shown, when the total exceeds what was
/// returned: the total less the results shown and the offset, but not below zero.
pub open spec fn remaining_spec(total: nat, shown: nat, offset: nat) -> Option<nat> {
    if total > shown {
        Some(if total >= shown + offset { (total - shown - offset) as nat } else { 0 })
    } else {
        None
    }
}

/// How many results lie beyond the page shown.
pub fn remaining_results(total: usize, shown: usize, offset: u32) -> (r: Option<usize>)
    requires
        shown + offset <= usize::MAX,
    ensures
        match r {
            Some(n) => remaining_spec(total as nat, shown as nat, offset as nat) == Some(n as nat),
            None => remaining_spec(total as nat, shown as nat, offset as nat) is None,
        },
{
    if total > shown {
        Some(total.saturating_sub(shown + offset as usize))
    } else {
        None
    }
}

/// The model of a collection.
pub struct CollectionModel {
    pub name: Seq<char>,
    pub document_count: nat,
    pub size_bytes: nat,
    pub created_at: Seq<char>,
    pub updated_at: Option<Seq<char>>,
}

impl Collection {
    pub open spec fn model(&self) -> CollectionModel {
        CollectionModel {
            name: self.name@,
            document_count: self.document_count as nat,
            size_bytes: self.size_bytes as nat,
            created_at: self.created_at@,
            updated_at: opt_view(self.updated_at),
        }
    }
}

/// The models of a list of collections.
pub open spec fn collections_model(cs: Seq<Collection>) -> Seq<CollectionModel> {
    Seq::new(cs.len(), |i: int| cs[i].model())
}

/// The collections whose name matches the glob `pattern`, in order.
pub open spec fn matching(cs: Seq<CollectionModel>, pattern: Seq<char>) -> Seq<CollectionModel>
    decreases cs.len(),
{
    if cs.len() == 0 {
        Seq::empty()
    } else {
        matching(cs.drop_last(), pattern) + if glob_match(pattern, cs.last().name) {
            seq![cs.last()]
        } else {
            Seq::empty()
        }
    }
}

/// The collections that a listing shows: with a pattern, those whose name matches it
/// as a glob; else all of them.
pub fn filter_collections(collections: Vec<Collection>, pattern: &Option<String>) -> (r: Vec<Collection>)
    ensures
        collections_model(r@) == match pattern {
            Some(p) => matching(collections_model(collections@), p@),
            None => collections_model(collections@),
        },
{
    match pattern {
        None => collections,
        Some(p) => {
            let ghost cs = collections_model(collections@);
            let mut kept: Vec<Collection> = Vec::new();
            let mut rest = collections;
            let ghost all = rest@;
            assert(collections_model(kept@) =~= matching(cs.take(0), p@));
            assert(rest@ =~= all.skip(0));
            let mut i: usize = 0;
            let n = rest.len();
            while i < n
                invariant
                    n == all.len(),
                    i <= n,
                    cs == collections_model(all),
                    rest@ == all.skip(i as int),
                    collections_model(kept@) == matching(cs.take(i as int), p@),
                decreases n - i,
            {
                let c = rest.remove(0);
                assert(c == all[i as int]);
                assert(rest@ =~= all.skip((i + 1) as int));
                assert(cs.take((i + 1) as int).drop_last() =~= cs.take(i as int));
                let ghost before = kept@;
                if glob_matches(p.as_str(), c.name.as_str()) {
                    kept.push(c);
                    assert(collections_model(kept@) =~= collections_model(before).push(cs[i as int]));
                } else {
                    assert(collections_model(kept@) =~= collections_model(before));
                }
                i = i + 1;
                assert(cs.take(i as int).last() == cs[(i - 1) as int]);
            }
            assert(cs.take(n as int) =~= cs);
            kept
        },
    }
}

/// The position of the first keyword that occurs in `message`, if any.
pub open spec fn first_keyword(message: Seq<char>, keywords: Seq<Seq<char>>) -> Option<nat>
    decreases keywords.len(),
{
    if keywords.len() == 0 {
        None
    } else if contains_seq(message, keywords[0]) {
        Some(0)
    } else {
        match first_keyword(message, keywords.drop_first()) {
            Some(k) => Some(k + 1),
            None => None,
        }
    }
}

/// Which of the keywords a failure message mentions first in the list: it selects
/// the troubleshooting hint that follows the message.
pub fn classify_failure(message: &str, keywords: &[&str]) -> (r: Option<usize>)
    ensures
        match r {
            Some(k) => first_keyword(message@, keywords@.map_values(|s: &str| s@)) == Some(k as nat),
            None => first_keyword(message@, keywords@.map_values(|s: &str| s@)) is None,
        },
{
    let ghost ks = keywords@.map_values(|s: &str| s@);
    let mut i: usize = 0;
    assert(ks.skip(0) =~= ks);
    while i < keywords.len()
        invariant
            i <= keywords@.len(),
            ks == keywords@.map_values(|s: &str| s@),
            forall|j: int| 0 <= j < i ==> !contains_seq(message@, #[trigger] ks[j]),
            first_keyword(message@, ks) == match first_keyword(message@, ks.skip(i as int)) {
                Some(k) => Some((k + i) as nat),
                None => None::<nat>,
            },
        decreases keywords@.len() - i,
    {
        assert(ks.skip(i as int)[0] == ks[i as int]);
        assert(ks.skip(i as int).drop_first() =~= ks.skip((i + 1) as int));
        if str_contains(message, keywords[i]) {
            return Some(i);
        }
        i = i + 1;
    }
    None
}

/// Where the client sends its requests and how long it waits for each.
#[derive(Debug)]
pub struct ClientConfig {
    pub base_url: String,
    pub timeout: Duration,
}

impl ClientConfig {
    /// The settings of a client of `base_url`: the given timeout, or 30 seconds
    /// when none is given.
    pub fn new(base_url: String, timeout: Option<Duration>) -> (c: Self)
        ensures
            c.base_url@ == base_url@,
            c.timeout == match timeout {
                Some(t) => t,
                None => duration_of_secs(30),
            },
    {
        let t = match timeout {
            Some(t) => t,
            None => seconds(30),
        };
        ClientConfig { base_url, timeout: t }
    }
}

/// `base`, then `endpoint`.
pub fn endpoint_url(base: &str, endpoint: &str) -> (url: String)
    ensures
        url@ == base@ + endpoint@,
{
    concat(base, endpoint)
}

/// The URL of one document.
pub fn document_url(base: &str, collection: &str, id: &str) -> (url: String)
    ensures
        url@ == base@ + "/api/v1/collections/"@ + collection@ + "/documents/"@ + id@,
{
    let mut url = owned(base);
    push_str(&mut url, "/api/v1/collections/");
    push_str(&mut url, collection);
    push_str(&mut url, "/documents/");
    push_str(&mut url, id);
    url
}

/// The URL of a collection's query endpoint.
pub fn query_url(base: &str, collection: &str) -> (url: String)
    ensures
        url@ == base@ + "/api/v1/collections/"@ + collection@ + "/query"@,
{
    let mut url = owned(base);
    push_str(&mut url, "/api/v1/collections/");
    push_str(&mut url, collection);
    push_str(&mut url, "/query");
    url
}

/// The paging parameters of a document listing, joined by `&` after a `?`; nothing
/// when neither is given.
pub open spec fn paging_suffix(limit: Option<usize>, offset: Option<usize>) -> Seq<char> {
    match (limit, offset) {
        (None, None) => Seq::empty(),
        (Some(l), None) => "?limit="@ + decimal(l as nat),
        (None, Some(o)) => "?offset="@ + decimal(o as nat),
        (Some(l), Some(o)) => "?limit="@ + decimal(l as nat) + "&offset="@ + decimal(o as nat),
    }
}

/// The URL of a collection's document listing, with optional paging.
pub fn documents_url(base: &str, collection: &str, limit: Option<usize>, offset: Option<usize>) -> (url: String)
    ensures
        url@ == base@ + "/api/v1/collections/"@ + collection@ + "/documents"@ + paging_suffix(
            limit,
            offset,
        ),
{
    let mut url = owned(base);
    push_str(&mut url, "/api/v1/collections/");
    push_str(&mut url, collection);
    push_str(&mut url, "/documents");
    let ghost head = url@;
    match limit {
        Some(l) => {
            push_str(&mut url, "?limit=");
            push_decimal(&mut url, l as u64);
            match offset {
                Some(o) => {
                    push_str(&mut url, "&offset=");
                    push_decimal(&mut url, o as u64);
                },
                None => {},
            }
        },
        None => {
            match offset {
                Some(o) => {
                    push_str(&mut url, "?offset=");
                    push_decimal(&mut url, o as u64);
                },
                None => {},
            }
        },
    }
    assert(url@ =~= head + paging_suffix(limit, offset));
    url
}

} // verus!

verus! {

/// The sort order a direction names: `asc` ascending (`1`), `desc` descending (`-1`).
pub open spec fn sort_direction(d: Seq<char>) -> Option<JsonModel> {
    if d == "asc"@ {
        Some(JsonModel::Number(NumberModel::PosInt(1)))
    } else if d == "desc"@ {
        Some(JsonModel::Number(NumberModel::NegInt(-1)))
    } else {
        None
    }
}

/// One `field:direction` clause: a non-empty field name, a colon, and a direction.
pub open spec fn sort_clause(piece: Seq<char>) -> Option<(Seq<char>, JsonModel)> {
    let parts = split_on(piece, ':');
    if parts.len() == 2 && parts[0].len() > 0 {
        match sort_direction(parts[1]) {
            Some(d) => Some((parts[0], d)),
            None => None,
        }
    } else {
        None
    }
}

/// The sort object of comma-separated clauses, each field put in place as a map
/// insertion does; nothing when a clause is malformed.
pub open spec fn sort_members(pieces: Seq<Seq<char>>) -> Option<Seq<(Seq<char>, JsonModel)>>
    decreases pieces.len(),
{
    if pieces.len() == 0 {
        Some(Seq::empty())
    } else {
        match sort_members(pieces.drop_last()) {
            Some(ms) => match sort_clause(pieces.last()) {
                Some(c) => Some(inserted(ms, c.0, c.1)),
                None => None,
            },
            None => None,
        }
    }
}

/// The sort object that `field:direction[,field:direction...]` text denotes, in the
/// form of the JSON sort (`{"created_at": -1}`); nothing when the text is not of that form.
pub open spec fn field_sort(text: Seq<char>) -> Option<JsonModel> {
    match sort_members(split_on(text, ',')) {
        Some(ms) => Some(JsonModel::Object(ms)),
        None => None,
    }
}

proof fn lemma_sort_members_none_stays(pieces: Seq<Seq<char>>, k: int)
    requires
        0 < k <= pieces.len(),
        sort_members(pieces.take(k)) is None,
    ensures
        sort_members(pieces) is None,
    decreases pieces.len() - k,
{
    if k < pieces.len() {
        assert(pieces.take(k + 1).drop_last() =~= pieces.take(k));
        lemma_sort_members_none_stays(pieces, k + 1);
    } else {
        assert(pieces.take(k) =~= pieces);
    }
}

/// The sort object of `field:direction` text, or nothing when it is not of that form.
pub fn field_sort_value(text: &str) -> (r: Option<JsonValue>)
    ensures
        match field_sort(text@) {
            Some(m) => r matches Some(v) && v.model() == m,
            None => r is None,
        },
{
    let pieces = split_pieces(text, ',');
    let ghost ps = split_on(text@, ',');
    let mut members: Vec<(String, JsonValue)> = Vec::new();
    let mut i: usize = 0;
    assert(ps.take(0) =~= Seq::<Seq<char>>::empty());
    assert(members_model(members@) =~= Seq::<(Seq<char>, JsonModel)>::empty());
    while i < pieces.len()
        invariant
            i <= pieces@.len(),
            strings_view(pieces@) == ps,
            ps == split_on(text@, ','),
            sort_members(ps.take(i as int)) == Some(members_model(members@)),
        decreases pieces.len() - i,
    {
        let piece = &pieces[i];
        assert(piece@ == ps[i as int]);
        assert(ps.take((i + 1) as int).drop_last() =~= ps.take(i as int));
        assert(ps.take((i + 1) as int).last() == ps[i as int]);
        let parts = split_pieces(piece.as_str(), ':');
        let ghost pv = strings_view(parts@);
        let mut clause: Option<(String, JsonValue)> = None;
        if parts.len() == 2 && to_chars(parts[0].as_str()).len() > 0 {
            assert(parts[0]@ == pv[0] && parts[1]@ == pv[1]);
            if str_equal(parts[1].as_str(), "asc") {
                clause = Some((owned(parts[0].as_str()), JsonValue::Number(JsonNumber::PosInt(1))));
            } else if str_equal(parts[1].as_str(), "desc") {
                clause = Some((owned(parts[0].as_str()), JsonValue::Number(JsonNumber::NegInt(-1))));
            }
        }
        match clause {
            Some((field, value)) => {
                assert(sort_clause(ps[i as int]) == Some((field@, value.model())));
                insert_member(&mut members, field, value);
            },
            None => {
                proof {
                    reveal_strlit("asc");
                    reveal_strlit("desc");
                    assert(sort_clause(ps[i as int]) is None);
                    lemma_sort_members_none_stays(ps, i + 1);
                }
                return None;
            },
        }
        i = i + 1;
    }
    assert(ps.take(pieces@.len() as int) =~= ps);
    Some(object(members))
}

/// The value of a `--sort` argument: `field:direction` clauses when the text has that
/// form, else JSON input as `parse_json_input` reads it (`file_text`: what was read for
/// an `@path`).
pub fn parse_sort_input(input: &str, file_text: Option<String>) -> (r: Result<JsonValue, JsonInputError>)
    ensures
        field_sort(input@) matches Some(m) ==> r matches Ok(v) && v.model() == m,
        field_sort(input@) is None && input@.len() > 0 && input@[0] == '@' ==> match file_text {
            None => r == Err::<JsonValue, JsonInputError>(JsonInputError::FileNotFound),
            Some(t) => match json_text_model(t@) {
                Some(m) => r matches Ok(v) && v.model() == m,
                None => r == Err::<JsonValue, JsonInputError>(JsonInputError::InvalidFileJson),
            },
        },
        field_sort(input@) is None && !(input@.len() > 0 && input@[0] == '@') ==> match json_text_model(
            input@,
        ) {
            Some(m) => r matches Ok(v) && v.model() == m,
            None => r == Err::<JsonValue, JsonInputError>(JsonInputError::InvalidJson),
        },
{
    match field_sort_value(input) {
        Some(v) => Ok(v),
        None => parse_json_input(input, file_text),
    }
}

} // verus!

verus! {

/// A query request asks for the page the arguments name: its `limit` member is the
/// requested limit and its `offset` member the requested offset; the filter and sort
/// are those given (null when absent).
pub proof fn lemma_query_body_paging(args: QueryArgs, filter: Option<JsonValue>, sort: Option<JsonValue>)
    ensures
        lookup(query_body_spec(args, filter, sort), "limit"@) == Some(
            JsonModel::Number(NumberModel::PosInt(args.limit as nat)),
        ),
        lookup(query_body_spec(args, filter, sort), "offset"@) == Some(
            JsonModel::Number(NumberModel::PosInt(args.offset as nat)),
        ),
        lookup(query_body_spec(args, filter, sort), "filter"@) == Some(or_null(filter)),
        lookup(query_body_spec(args, filter, sort), "sort"@) == Some(or_null(sort)),
        lookup(query_body_spec(args, filter, sort), "explain"@) == Some(JsonModel::Bool(args.explain)),
        lookup(query_body_spec(args, filter, sort), "include_metadata"@) == Some(
            JsonModel::Bool(args.include_metadata),
        ),
{
    reveal_strlit("explain");
    reveal_strlit("filter");
    reveal_strlit("include_metadata");
    reveal_strlit("limit");
    reveal_strlit("offset");
    reveal_strlit("sort");
    let ms = query_body_spec(args, filter, sort)->Object_0;
    assert("limit"@.len() != "explain"@.len() && "limit"@.len() != "filter"@.len()
        && "limit"@.len() != "include_metadata"@.len());
    assert("offset"@.len() != "explain"@.len() && "offset"@[0] != "filter"@[0]
        && "offset"@.len() != "include_metadata"@.len() && "offset"@.len() != "limit"@.len());
    let e = ms[0];
    let f = ms[1];
    let im = ms[2];
    let l = ms[3];
    let o = ms[4];
    let s = ms[5];
    let m0 = Seq::<(Seq<char>, JsonModel)>::empty();
    assert(ms =~= m0.push(e).push(f).push(im).push(l).push(o).push(s));
    assert(member_index(m0, "limit"@) is None && member_index(m0, "offset"@) is None
        && member_index(m0, "filter"@) is None && member_index(m0, "sort"@) is None
        && member_index(m0, "explain"@) is None && member_index(m0, "include_metadata"@) is None) by {
        reveal(member_index);
    }
    assert("include_metadata"@.len() != "explain"@.len() && "include_metadata"@[0] != "filter"@[0]);
    lemma_member_index_snoc(m0, e, "explain"@);
    lemma_member_index_snoc(m0.push(e), f, "explain"@);
    lemma_member_index_snoc(m0.push(e).push(f), im, "explain"@);
    lemma_member_index_snoc(m0.push(e).push(f).push(im), l, "explain"@);
    lemma_member_index_snoc(m0.push(e).push(f).push(im).push(l), o, "explain"@);
    lemma_member_index_snoc(m0.push(e).push(f).push(im).push(l).push(o), s, "explain"@);
    lemma_member_index_snoc(m0, e, "include_metadata"@);
    lemma_member_index_snoc(m0.push(e), f, "include_metadata"@);
    lemma_member_index_snoc(m0.push(e).push(f), im, "include_metadata"@);
    lemma_member_index_snoc(m0.push(e).push(f).push(im), l, "include_metadata"@);
    lemma_member_index_snoc(m0.push(e).push(f).push(im).push(l), o, "include_metadata"@);
    lemma_member_index_snoc(m0.push(e).push(f).push(im).push(l).push(o), s, "include_metadata"@);
    lemma_member_index_snoc(m0, e, "limit"@);
    lemma_member_index_snoc(m0.push(e), f, "limit"@);
    lemma_member_index_snoc(m0.push(e).push(f), im, "limit"@);
    lemma_member_index_snoc(m0.push(e).push(f).push(im), l, "limit"@);
    lemma_member_index_snoc(m0.push(e).push(f).push(im).push(l), o, "limit"@);
    lemma_member_index_snoc(m0.push(e).push(f).push(im).push(l).push(o), s, "limit"@);
    lemma_member_index_snoc(m0, e, "offset"@);
    lemma_member_index_snoc(m0.push(e), f, "offset"@);
    lemma_member_index_snoc(m0.push(e).push(f), im, "offset"@);
    lemma_member_index_snoc(m0.push(e).push(f).push(im), l, "offset"@);
    lemma_member_index_snoc(m0.push(e).push(f).push(im).push(l), o, "offset"@);
    lemma_member_index_snoc(m0.push(e).push(f).push(im).push(l).push(o), s, "offset"@);
    lemma_member_index_snoc(m0, e, "filter"@);
    lemma_member_index_snoc(m0.push(e), f, "filter"@);
    lemma_member_index_snoc(m0.push(e).push(f), im, "filter"@);
    lemma_member_index_snoc(m0.push(e).push(f).push(im), l, "filter"@);
    lemma_member_index_snoc(m0.push(e).push(f).push(im).push(l), o, "filter"@);
    lemma_member_index_snoc(m0.push(e).push(f).push(im).push(l).push(o), s, "filter"@);
    lemma_member_index_snoc(m0, e, "sort"@);
    lemma_member_index_snoc(m0.push(e), f, "sort"@);
    lemma_member_index_snoc(m0.push(e).push(f), im, "sort"@);
    lemma_member_index_snoc(m0.push(e).push(f).push(im), l, "sort"@);
    lemma_member_index_snoc(m0.push(e).push(f).push(im).push(l), o, "sort"@);
    lemma_member_index_snoc(m0.push(e).push(f).push(im).push(l).push(o), s, "sort"@);
}

} // verus!
