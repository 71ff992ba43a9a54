//! Batch operations: where the documents or IDs come from, how work is cut into
//! batches and tallied, the confirmation asked before a deletion, the documents'
//! IDs, and the reshaping of documents on import and export.
use vstd::prelude::*;
use crate::args::{BatchDeleteArgs, BatchImportArgs, BatchPutArgs};
use crate::json::{
    json_text_model, parse_json_text, JsonModel, JsonValue, array, inserted, insert_member, items_model, lookup, members_model, no_members,
    object, push_member, text, uint,
};
use crate::text::{
    concat, lower_text, opt_view, owned, push_str, split_on, split_pieces, str_equal, strings_view,
    to_lower, trim, trimmed,
};

verus! {

/// The trimmed pieces of a comma-separated list of IDs, empty ones included.
pub open spec fn id_list(ids: Seq<char>) -> Seq<Seq<char>> {
    split_on(ids, ',').map_values(|p: Seq<char>| trimmed(p))
}

/// The IDs of a comma-separated list, each trimmed.
pub fn parse_id_list(ids: &str) -> (r: Vec<String>)
    ensures
        strings_view(r@) == id_list(ids@),
{
    let pieces = split_pieces(ids, ',');
    let mut r: Vec<String> = Vec::new();
    let mut i: usize = 0;
    while i < pieces.len()
        invariant
            i <= pieces@.len(),
            strings_view(pieces@) == split_on(ids@, ','),
            r@.len() == i,
            forall|k: int| 0 <= k < i ==> #[trigger] r@[k]@ == trimmed(pieces@[k]@),
        decreases pieces@.len() - i,
    {
        r.push(trim(pieces[i].as_str()));
        i = i + 1;
    }
    assert(strings_view(r@) =~= id_list(ids@));
    r
}

/// The non-empty trimmed lines of a text, in order.
pub open spec fn id_lines(content: Seq<char>) -> Seq<Seq<char>> {
    split_on(content, '\n').map_values(|p: Seq<char>| trimmed(p)).filter(|l: Seq<char>| l.len() > 0)
}

/// The IDs listed in a file's text: one per line, trimmed, blank lines skipped.
pub fn ids_from_lines(content: &str) -> (r: Vec<String>)
    ensures
        strings_view(r@) == id_lines(content@),
{
    let pieces = split_pieces(content, '\n');
    let ghost lines = split_on(content@, '\n').map_values(|p: Seq<char>| trimmed(p));
    let mut r: Vec<String> = Vec::new();
    let mut i: usize = 0;
    while i < pieces.len()
        invariant
            i <= pieces@.len(),
            strings_view(pieces@) == split_on(content@, '\n'),
            lines == split_on(content@, '\n').map_values(|p: Seq<char>| trimmed(p)),
            lines.len() == pieces@.len(),
            strings_view(r@) == lines.take(i as int).filter(|l: Seq<char>| l.len() > 0),
        decreases pieces@.len() - i,
    {
        let line = trim(pieces[i].as_str());
        let ghost before = strings_view(r@);
        assert(lines[i as int] == line@);
        assert(lines.take((i + 1) as int) =~= lines.take(i as int).push(line@));
        proof {
            reveal(Seq::filter);
            assert(lines.take((i + 1) as int).drop_last() =~= lines.take(i as int));
        }
        if line.unicode_len() > 0 {
            r.push(line);
            assert(strings_view(r@) =~= before.push(lines[i as int]));
        }
        i = i + 1;
    }
    assert(lines.take(pieces@.len() as int) =~= lines);
    r
}

/// Where the IDs of a batch deletion come from.
#[derive(Debug)]
pub enum DeletionSource {
    /// An explicit comma-separated list.
    Ids(Vec<String>),
    /// A file with one ID per line.
    File(String),
    /// The documents that match a JSON filter.
    Filter(String),
}

/// Why a batch command stops before it starts.
#[derive(Debug, PartialEq, Eq, Structural)]
pub enum BatchError {
    /// A batch deletion named no IDs, file or filter.
    NoDeletionTargets,
    /// A batch put named neither a file nor standard input.
    NoInput,
    /// The import format is not supported.
    UnsupportedImportFormat,
    /// XML import is not available.
    XmlImportUnavailable,
    /// The export format is not supported.
    UnsupportedExportFormat,
    /// XML export is not available.
    XmlExportUnavailable,
}

/// Where a batch deletion takes its IDs: the list if given, else the file, else the
/// filter.
pub fn deletion_source(args: &BatchDeleteArgs) -> (r: Result<DeletionSource, BatchError>)
    ensures
        match args.ids {
            Some(ids) => r matches Ok(DeletionSource::Ids(v)) && strings_view(v@) == id_list(ids@),
            None => match args.file {
                Some(f) => r matches Ok(DeletionSource::File(g)) && g@ == f@,
                None => match args.filter {
                    Some(q) => r matches Ok(DeletionSource::Filter(p)) && p@ == q@,
                    None => r == Err::<DeletionSource, BatchError>(BatchError::NoDeletionTargets),
                },
            },
        },
{
    if let Some(ids) = &args.ids {
        Ok(DeletionSource::Ids(parse_id_list(ids.as_str())))
    } else if let Some(f) = &args.file {
        Ok(DeletionSource::File(f.clone()))
    } else if let Some(q) = &args.filter {
        Ok(DeletionSource::Filter(q.clone()))
    } else {
        Err(BatchError::NoDeletionTargets)
    }
}

/// Whether a batch deletion asks for confirmation: unless forced or a dry run.
pub open spec fn asks_confirmation(args: BatchDeleteArgs) -> bool {
    !args.force && !args.dry_run
}

/// Whether the answer to the deletion prompt is yes: trimmed and lower-cased, it is
/// `yes` or `y`.
pub fn confirms_deletion(answer: &str) -> (b: bool)
    ensures
        b == (lower_text(trimmed(answer@)) == "yes"@ || lower_text(trimmed(answer@)) == "y"@),
{
    let t = trim(answer);
    let l = to_lower(t.as_str());
    str_equal(l.as_str(), "yes") || str_equal(l.as_str(), "y")
}

/// The first `limit` items, and how many more there are.
pub fn preview(items: &Vec<String>, limit: usize) -> (r: (Vec<String>, usize))
    ensures
        strings_view(r.0@) == strings_view(items@).take(if items@.len() < limit { items@.len() as int } else { limit as int }),
        r.1 == if items@.len() > limit { items@.len() - limit } else { 0 },
{
    let n = if items.len() < limit { items.len() } else { limit };
    let mut shown: Vec<String> = Vec::new();
    let mut i: usize = 0;
    while i < n
        invariant
            n <= items@.len(),
            i <= n,
            shown@.len() == i,
            forall|k: int| 0 <= k < i ==> #[trigger] shown@[k]@ == items@[k]@,
        decreases n - i,
    {
        shown.push(items[i].clone());
        i = i + 1;
    }
    assert(strings_view(shown@) =~= strings_view(items@).take(n as int));
    let more = if items.len() > limit { items.len() - limit } else { 0 };
    (shown, more)
}

/// The batches of `n` items in batches of `size` (as `chunks(size)` cuts them): each
/// as its start and end. Every batch but the last is full; the last ends at `n`.
pub fn batch_ranges(n: usize, size: usize) -> (r: Vec<(usize, usize)>)
    requires
        size > 0,
    ensures
        (r@.len() == 0) == (n == 0),
        r@.len() > 0 ==> (r@.len() - 1) * size < n <= r@.len() * size,
        forall|i: int|
            0 <= i < r@.len() ==> (#[trigger] r@[i]).0 == i * size && r@[i].1 == (if (i + 1) * size
                <= n {
                (i + 1) * size
            } else {
                n as int
            }),
{
    let mut r: Vec<(usize, usize)> = Vec::new();
    let mut start: usize = 0;
    let mut k: usize = 0;
    while start < n
        invariant
            size > 0,
            start <= n,
            start == k * size,
            k <= start,
            r@.len() == k,
            k > 0 ==> (k - 1) * size < n,
            forall|i: int|
                0 <= i < k ==> (#[trigger] r@[i]).0 == i * size && r@[i].1 == (if (i + 1) * size
                    <= n {
                    (i + 1) * size
                } else {
                    n as int
                }),
        decreases n - start,
    {
        let end = if n - start <= size { n } else { start + size };
        proof {
            assert((k + 1) * size == k * size + size) by (nonlinear_arith);
        }
        r.push((start, end));
        if end == n {
            proof {
                assert((k + 1) * size == k * size + size) by (nonlinear_arith);
            }
            k = k + 1;
            assert(r@.len() > 0 ==> (r@.len() - 1) * size < n <= r@.len() * size);
            return r;
        }
        k = k + 1;
        start = end;
    }
    r
}

/// Whether progress is reported after a batch: every `every`-th batch, and the last.
pub fn reports_progress(batch_index: usize, total_batches: usize, every: usize) -> (b: bool)
    requires
        every > 0,
        total_batches > 0,
    ensures
        b == (batch_index % every == 0 || batch_index == total_batches - 1),
{
    batch_index % every == 0 || batch_index == total_batches - 1
}

/// The running tally of a batch: successes, and the messages of failures in order.
#[derive(Debug)]
pub struct BatchTally {
    pub successes: usize,
    pub errors: Vec<String>,
}

impl BatchTally {
    /// A tally with nothing recorded.
    pub fn new() -> (t: BatchTally)
        ensures
            t.successes == 0,
            t.errors@.len() == 0,
    {
        BatchTally { successes: 0, errors: Vec::new() }
    }

    /// Records one document's outcome; says whether the batch goes on: always after a
    /// success, after a failure only when errors are tolerated.
    pub fn record(&mut self, outcome: Result<(), String>, continue_on_error: bool) -> (go_on: bool)
        requires
            old(self).successes < usize::MAX,
        ensures
            match outcome {
                Ok(_) => final(self).successes == old(self).successes + 1 && strings_view(
                    final(self).errors@,
                ) == strings_view(old(self).errors@) && go_on,
                Err(e) => final(self).successes == old(self).successes && strings_view(
                    final(self).errors@,
                ) == strings_view(old(self).errors@).push(e@) && go_on == continue_on_error,
            },
    {
        match outcome {
            Ok(_) => {
                self.successes = self.successes + 1;
                true
            },
            Err(e) => {
                let ghost before = self.errors@;
                let ghost ev = e@;
                self.errors.push(e);
                assert(strings_view(self.errors@) =~= strings_view(before).push(ev));
                continue_on_error
            },
        }
    }
}

/// The path of one document.
pub fn document_path(collection: &str, id: &str) -> (p: String)
    ensures
        p@ == "/api/v1/collections/"@ + collection@ + "/documents/"@ + id@,
{
    let mut p = owned("/api/v1/collections/");
    push_str(&mut p, collection);
    push_str(&mut p, "/documents/");
    push_str(&mut p, id);
    p
}

/// The string member named `field` of a document, if it has one.
pub open spec fn string_member(doc: JsonModel, field: Seq<char>) -> Option<Seq<char>> {
    match lookup(doc, field) {
        Some(JsonModel::Str(s)) => Some(s),
        _ => None,
    }
}

/// The ID under which a document is stored: its `id_field` member, which must be a
/// string (else the field's name is returned as the error); without an ID field, a
/// fresh `doc_` identifier.
pub fn document_id(doc: &JsonValue, id_field: &Option<String>) -> (r: Result<String, String>)
    ensures
        match id_field {
            Some(f) => match string_member(doc.model(), f@) {
                Some(s) => r matches Ok(id) && id@ == s,
                None => r matches Err(name) && name@ == f@,
            },
            None => r matches Ok(id) && id@.len() == 40 && id@.subrange(0, 4) == "doc_"@,
        },
{
    match id_field {
        Some(f) => match doc.get(f.as_str()) {
            Some(JsonValue::Str(s)) => Ok(s.clone()),
            _ => Err(f.clone()),
        },
        None => {
            let u = crate::saas::fresh_uuid();
            let id = concat("doc_", u.as_str());
            proof {
                reveal_strlit("doc_");
            }
            assert(id@.subrange(0, 4) =~= "doc_"@);
            Ok(id)
        },
    }
}

/// The query that finds the IDs of the documents a filter matches: only their `_id`,
/// at most 10000.
pub open spec fn deletion_query_spec(filter: JsonModel) -> JsonModel {
    JsonModel::Object(
        seq![
            ("fields"@, JsonModel::Array(seq![JsonModel::Str("_id"@)])),
            ("filter"@, filter),
            ("limit"@, JsonModel::Number(crate::json::NumberModel::PosInt(10000))),
        ],
    )
}

/// The query that finds the IDs of the documents a filter matches.
pub fn deletion_query(filter: JsonValue) -> (q: JsonValue)
    ensures
        q.model() == deletion_query_spec(filter.model()),
{
    let ghost f = filter.model();
    let fields = vec![text("_id")];
    assert(items_model(fields@) =~= seq![JsonModel::Str("_id"@)]);
    let mut m = no_members();
    push_member(&mut m, "fields", array(fields));
    push_member(&mut m, "filter", filter);
    push_member(&mut m, "limit", uint(10000));
    assert(members_model(m@) =~= deletion_query_spec(f)->Object_0);
    object(m)
}

/// The string `_id` of each listed document that has one, in order.
pub open spec fn listed_ids(docs: Seq<JsonModel>) -> Seq<Seq<char>>
    decreases docs.len(),
{
    if docs.len() == 0 {
        Seq::empty()
    } else {
        listed_ids(docs.drop_last()) + match string_member(docs.last(), "_id"@) {
            Some(id) => seq![id],
            None => Seq::empty(),
        }
    }
}

/// The IDs that a query result lists under `documents`; none when it lists nothing.
pub fn ids_from_query_result(result: &JsonValue) -> (ids: Vec<String>)
    ensures
        strings_view(ids@) == match lookup(result.model(), "documents"@) {
            Some(JsonModel::Array(docs)) => listed_ids(docs),
            _ => Seq::empty(),
        },
{
    let mut ids: Vec<String> = Vec::new();
    match result.get("documents") {
        Some(JsonValue::Array(docs)) => {
            let ghost dm = JsonValue::Array(*docs).model()->Array_0;
            let mut i: usize = 0;
            while i < docs.len()
                invariant
                    i <= docs@.len(),
                    dm == JsonValue::Array(*docs).model()->Array_0,
                    dm.len() == docs@.len(),
                    strings_view(ids@) == listed_ids(dm.take(i as int)),
                decreases docs@.len() - i,
            {
                assert(dm[i as int] == docs@[i as int].model());
                assert(dm.take((i + 1) as int).drop_last() =~= dm.take(i as int));
                let ghost before = ids@;
                match docs[i].get("_id") {
                    Some(JsonValue::Str(id)) => {
                        ids.push(id.clone());
                    },
                    _ => {},
                }
                assert(strings_view(ids@) =~= listed_ids(dm.take((i + 1) as int)));
                i = i + 1;
            }
            assert(dm.take(docs@.len() as int) =~= dm);
        },
        _ => {
            assert(strings_view(ids@) =~= Seq::<Seq<char>>::empty());
        },
    }
    ids
}

/// The query of an export: the filter if one is given, and the limit (10000 unless
/// another is given).
pub open spec fn export_query_spec(filter: Option<JsonModel>, limit: Option<usize>) -> JsonModel {
    JsonModel::Object(
        match filter {
            Some(f) => seq![("filter"@, f)],
            None => Seq::empty(),
        } + seq![
            ("limit"@, JsonModel::Number(crate::json::NumberModel::PosInt(match limit {
                Some(l) => l as nat,
                None => 10000,
            }))),
        ],
    )
}

/// The query of an export.
pub fn export_query(filter: Option<JsonValue>, limit: Option<usize>) -> (q: JsonValue)
    ensures
        q.model() == export_query_spec(
            match filter {
                Some(f) => Some(f.model()),
                None => None,
            },
            limit,
        ),
{
    let ghost fm = match &filter {
        Some(f) => Some(f.model()),
        None => None::<JsonModel>,
    };
    let mut m = no_members();
    match filter {
        Some(f) => push_member(&mut m, "filter", f),
        None => {},
    }
    let l: u64 = match limit {
        Some(l) => l as u64,
        None => 10000,
    };
    push_member(&mut m, "limit", uint(l));
    assert(members_model(m@) =~= export_query_spec(fm, limit)->Object_0);
    object(m)
}

/// The import formats.
#[derive(Clone, Copy, Debug, PartialEq, Eq, Structural)]
pub enum ImportFormat {
    Json,
    Csv,
    Tsv,
    Parquet,
}

/// The import format that a name asks for, or why there is none.
pub fn import_format(name: &str) -> (r: Result<ImportFormat, BatchError>)
    ensures
        r == if name@ == "json"@ {
            Ok(ImportFormat::Json)
        } else if name@ == "csv"@ {
            Ok(ImportFormat::Csv)
        } else if name@ == "xml"@ {
            Err(BatchError::XmlImportUnavailable)
        } else if name@ == "tsv"@ {
            Ok(ImportFormat::Tsv)
        } else if name@ == "parquet"@ {
            Ok(ImportFormat::Parquet)
        } else {
            Err(BatchError::UnsupportedImportFormat)
        },
{
    if str_equal(name, "json") {
        Ok(ImportFormat::Json)
    } else if str_equal(name, "csv") {
        Ok(ImportFormat::Csv)
    } else if str_equal(name, "xml") {
        Err(BatchError::XmlImportUnavailable)
    } else if str_equal(name, "tsv") {
        Ok(ImportFormat::Tsv)
    } else if str_equal(name, "parquet") {
        Ok(ImportFormat::Parquet)
    } else {
        Err(BatchError::UnsupportedImportFormat)
    }
}

/// The export formats.
#[derive(Clone, Copy, Debug, PartialEq, Eq, Structural)]
pub enum ExportFormat {
    Json,
    Jsonl,
    Csv,
    Tsv,
}

/// The export format that a name asks for, or why there is none.
pub fn export_format(name: &str) -> (r: Result<ExportFormat, BatchError>)
    ensures
        r == if name@ == "json"@ {
            Ok(ExportFormat::Json)
        } else if name@ == "jsonl"@ {
            Ok(ExportFormat::Jsonl)
        } else if name@ == "csv"@ {
            Ok(ExportFormat::Csv)
        } else if name@ == "xml"@ {
            Err(BatchError::XmlExportUnavailable)
        } else if name@ == "tsv"@ {
            Ok(ExportFormat::Tsv)
        } else {
            Err(BatchError::UnsupportedExportFormat)
        },
{
    if str_equal(name, "json") {
        Ok(ExportFormat::Json)
    } else if str_equal(name, "jsonl") {
        Ok(ExportFormat::Jsonl)
    } else if str_equal(name, "csv") {
        Ok(ExportFormat::Csv)
    } else if str_equal(name, "xml") {
        Err(BatchError::XmlExportUnavailable)
    } else if str_equal(name, "tsv") {
        Ok(ExportFormat::Tsv)
    } else {
        Err(BatchError::UnsupportedExportFormat)
    }
}

/// The arguments with which an import stores its documents: those of the import,
/// read from memory as JSON.
pub fn put_args_for_import(args: &BatchImportArgs) -> (p: BatchPutArgs)
    ensures
        p.collection@ == args.collection@,
        p.file is None,
        !p.stdin,
        p.format@ == "json"@,
        p.batch_size == args.batch_size,
        p.parallel == args.parallel,
        p.continue_on_error == args.continue_on_error,
        p.verbose == args.verbose,
        opt_view(p.id_field) == opt_view(args.id_field),
{
    BatchPutArgs {
        collection: args.collection.clone(),
        file: None,
        stdin: false,
        format: owned("json"),
        batch_size: args.batch_size,
        parallel: args.parallel,
        continue_on_error: args.continue_on_error,
        verbose: args.verbose,
        id_field: match &args.id_field {
            Some(f) => Some(f.clone()),
            None => None,
        },
    }
}

/// Where the documents of a batch put come from.
#[derive(Debug)]
pub enum PutSource {
    Stdin,
    File(String),
}

/// Where a batch put reads: standard input when asked, else the named file.
pub fn put_source(args: &BatchPutArgs) -> (r: Result<PutSource, BatchError>)
    ensures
        args.stdin ==> r matches Ok(PutSource::Stdin),
        !args.stdin ==> match args.file {
            Some(f) => r matches Ok(PutSource::File(g)) && g@ == f@,
            None => r matches Err(BatchError::NoInput),
        },
{
    if args.stdin {
        Ok(PutSource::Stdin)
    } else {
        match &args.file {
            Some(f) => Ok(PutSource::File(f.clone())),
            None => Err(BatchError::NoInput),
        }
    }
}

/// The renamings that a list of `old:new` mappings gives: those with exactly one colon,
/// in order.
pub open spec fn parsed_mappings(mappings: Seq<Seq<char>>) -> Seq<(Seq<char>, Seq<char>)>
    decreases mappings.len(),
{
    if mappings.len() == 0 {
        Seq::empty()
    } else {
        let parts = split_on(mappings.last(), ':');
        parsed_mappings(mappings.drop_last()) + if parts.len() == 2 {
            seq![(parts[0], parts[1])]
        } else {
            Seq::empty()
        }
    }
}

/// The name a field gets: the new name of the last renaming of it, else its own.
pub open spec fn renamed(key: Seq<char>, renamings: Seq<(Seq<char>, Seq<char>)>) -> Seq<char>
    decreases renamings.len(),
{
    if renamings.len() == 0 {
        key
    } else if renamings.last().0 == key {
        renamings.last().1
    } else {
        renamed(key, renamings.drop_last())
    }
}

/// An object's members, each renamed and put in sorted place (a later member
/// replacing an earlier one of the same new name).
pub open spec fn renamed_members(ms: Seq<(Seq<char>, JsonModel)>, renamings: Seq<(Seq<char>, Seq<char>)>) -> Seq<
    (Seq<char>, JsonModel),
>
    decreases ms.len(),
{
    if ms.len() == 0 {
        Seq::empty()
    } else {
        inserted(renamed_members(ms.drop_last(), renamings), renamed(ms.last().0, renamings), ms.last().1)
    }
}

/// A document with its fields renamed; other values as they are.
pub open spec fn mapped_document(doc: JsonModel, renamings: Seq<(Seq<char>, Seq<char>)>) -> JsonModel {
    match doc {
        JsonModel::Object(ms) => JsonModel::Object(renamed_members(ms, renamings)),
        _ => doc,
    }
}

/// The renamings that a list of `old:new` mappings gives.
pub fn parse_mappings(mappings: &Vec<String>) -> (r: Vec<(String, String)>)
    ensures
        crate::saas::pairs_view(r@) == parsed_mappings(strings_view(mappings@)),
{
    let ghost ms = strings_view(mappings@);
    let mut r: Vec<(String, String)> = Vec::new();
    let mut i: usize = 0;
    assert(crate::saas::pairs_view(r@) =~= parsed_mappings(ms.take(0)));
    while i < mappings.len()
        invariant
            i <= mappings@.len(),
            ms == strings_view(mappings@),
            crate::saas::pairs_view(r@) == parsed_mappings(ms.take(i as int)),
        decreases mappings@.len() - i,
    {
        assert(ms.take((i + 1) as int).drop_last() =~= ms.take(i as int));
        assert(ms.take((i + 1) as int).last() == mappings@[i as int]@);
        let parts = split_pieces(mappings[i].as_str(), ':');
        let ghost before = crate::saas::pairs_view(r@);
        if parts.len() == 2 {
            r.push((parts[0].clone(), parts[1].clone()));
            assert(crate::saas::pairs_view(r@) =~= before.push((parts@[0]@, parts@[1]@)));
        }
        assert(crate::saas::pairs_view(r@) =~= parsed_mappings(ms.take((i + 1) as int)));
        i = i + 1;
    }
    assert(ms.take(mappings@.len() as int) =~= ms);
    r
}

fn rename_key(key: &str, renamings: &Vec<(String, String)>) -> (r: String)
    ensures
        r@ == renamed(key@, crate::saas::pairs_view(renamings@)),
{
    let ghost rs = crate::saas::pairs_view(renamings@);
    let mut i: usize = renamings.len();
    assert(rs.take(i as int) =~= rs);
    while i > 0
        invariant
            i <= renamings@.len(),
            rs == crate::saas::pairs_view(renamings@),
            renamed(key@, rs) == renamed(key@, rs.take(i as int)),
        decreases i,
    {
        let ghost t = rs.take(i as int);
        assert(t.drop_last() =~= rs.take((i - 1) as int));
        assert(t.last() == (renamings@[i - 1].0@, renamings@[i - 1].1@));
        if str_equal(renamings[i - 1].0.as_str(), key) {
            return renamings[i - 1].1.clone();
        }
        i = i - 1;
    }
    owned(key)
}

/// A document with its fields renamed.
pub fn map_document(doc: &JsonValue, renamings: &Vec<(String, String)>) -> (r: JsonValue)
    ensures
        r.model() == mapped_document(doc.model(), crate::saas::pairs_view(renamings@)),
{
    match doc {
        JsonValue::Object(members) => {
            let ghost ms = doc.model()->Object_0;
            let ghost rs = crate::saas::pairs_view(renamings@);
            let mut out = no_members();
            let mut i: usize = 0;
            while i < members.len()
                invariant
                    i <= members@.len(),
                    ms == doc.model()->Object_0,
                    ms.len() == members@.len(),
                    rs == crate::saas::pairs_view(renamings@),
                    forall|k: int| 0 <= k < members@.len() ==> #[trigger] ms[k] == (members@[k].0@, members@[k].1.model()),
                    members_model(out@) == renamed_members(ms.take(i as int), rs),
                decreases members@.len() - i,
            {
                assert(ms[i as int] == (members@[i as int].0@, members@[i as int].1.model()));
                assert(ms.take((i + 1) as int).drop_last() =~= ms.take(i as int));
                let k = rename_key(members[i].0.as_str(), renamings);
                insert_member(&mut out, k, members[i].1.copy());
                i = i + 1;
            }
            assert(ms.take(members@.len() as int) =~= ms);
            object(out)
        },
        _ => doc.copy(),
    }
}

/// The documents with their fields renamed by `old:new` mappings.
pub fn apply_field_mapping(documents: &Vec<JsonValue>, mappings: &Vec<String>) -> (r: Vec<JsonValue>)
    ensures
        items_model(r@) == items_model(documents@).map_values(
            |d: JsonModel| mapped_document(d, parsed_mappings(strings_view(mappings@))),
        ),
{
    let renamings = parse_mappings(mappings);
    let mut r: Vec<JsonValue> = Vec::new();
    let mut i: usize = 0;
    while i < documents.len()
        invariant
            i <= documents@.len(),
            crate::saas::pairs_view(renamings@) == parsed_mappings(strings_view(mappings@)),
            r@.len() == i,
            forall|k: int|
                0 <= k < i ==> #[trigger] r@[k].model() == mapped_document(
                    documents@[k].model(),
                    parsed_mappings(strings_view(mappings@)),
                ),
        decreases documents@.len() - i,
    {
        r.push(map_document(&documents[i], &renamings));
        i = i + 1;
    }
    assert(items_model(r@) =~= items_model(documents@).map_values(
        |d: JsonModel| mapped_document(d, parsed_mappings(strings_view(mappings@))),
    ));
    r
}

/// A document reduced to the listed fields that it has; other values as they are.
pub open spec fn selected_fields(doc: JsonModel, fields: Seq<Seq<char>>) -> JsonModel {
    match doc {
        JsonModel::Object(_) => JsonModel::Object(crate::config_tools::filtered_members(doc, fields)),
        _ => doc,
    }
}

/// The documents reduced to the listed fields.
pub fn filter_document_fields(documents: &Vec<JsonValue>, fields: &Vec<String>) -> (r: Vec<JsonValue>)
    ensures
        items_model(r@) == items_model(documents@).map_values(
            |d: JsonModel| selected_fields(d, strings_view(fields@)),
        ),
{
    let mut r: Vec<JsonValue> = Vec::new();
    let mut i: usize = 0;
    while i < documents.len()
        invariant
            i <= documents@.len(),
            r@.len() == i,
            forall|k: int|
                0 <= k < i ==> #[trigger] r@[k].model() == selected_fields(
                    documents@[k].model(),
                    strings_view(fields@),
                ),
        decreases documents@.len() - i,
    {
        let d = if documents[i].is_object() {
            crate::config_tools::filter_config_by_components(&documents[i], fields)
        } else {
            documents[i].copy()
        };
        r.push(d);
        i = i + 1;
    }
    assert(items_model(r@) =~= items_model(documents@).map_values(
        |d: JsonModel| selected_fields(d, strings_view(fields@)),
    ));
    r
}

/// The header and records that the `csv` crate reads from `content` (its first
/// record as the header) with the given field delimiter, or nothing when it refuses
/// the text.
pub uninterp spec fn delimited_records(content: Seq<char>, delimiter: u8) -> Option<
    (Seq<Seq<char>>, Seq<Seq<Seq<char>>>),
>;

/// The views of a list of records.
pub open spec fn records_view(rows: Seq<Vec<String>>) -> Seq<Seq<Seq<char>>> {
    Seq::new(rows.len(), |i: int| strings_view(rows[i]@))
}

/// `csv::ReaderBuilder` with the given delimiter, reading `content`: its `headers`
/// and `records`. The records are named by `delimited_records`; a refusal comes back
/// as the crate's message.
#[verifier::external_body]
pub(crate) fn read_delimited(content: &str, delimiter: u8) -> (r: Result<(Vec<String>, Vec<Vec<String>>), String>)
    ensures
        match r {
            Ok((h, rows)) => delimited_records(content@, delimiter) == Some(
                (strings_view(h@), records_view(rows@)),
            ),
            Err(_) => delimited_records(content@, delimiter) is None,
        },
{
    let mut reader = csv::ReaderBuilder::new().delimiter(delimiter).from_reader(content.as_bytes());
    let header: Vec<String> = match reader.headers() {
        Ok(h) => h.iter().map(|f| f.to_string()).collect(),
        Err(e) => return Err(e.to_string()),
    };
    let mut rows: Vec<Vec<String>> = Vec::new();
    for record in reader.records() {
        match record {
            Ok(rec) => rows.push(rec.iter().map(|f| f.to_string()).collect()),
            Err(e) => return Err(e.to_string()),
        }
    }
    Ok((header, rows))
}

/// The text that the `csv` crate writes for a header and rows with the given field
/// delimiter (quoting fields as needed, each record ended by a newline).
pub uninterp spec fn delimited_text(header: Seq<Seq<char>>, rows: Seq<Seq<Seq<char>>>, delimiter: u8) -> Option<
    Seq<char>,
>;

/// `csv::WriterBuilder` with the given delimiter: writes the header, then each row,
/// and returns the text; the text is named by `delimited_text`.
#[verifier::external_body]
pub(crate) fn write_delimited(header: &Vec<String>, rows: &Vec<Vec<String>>, delimiter: u8) -> (r: Result<String, String>)
    ensures
        match r {
            Ok(t) => delimited_text(strings_view(header@), records_view(rows@), delimiter) == Some(t@),
            Err(_) => delimited_text(strings_view(header@), records_view(rows@), delimiter) is None,
        },
{
    let mut writer = csv::WriterBuilder::new().delimiter(delimiter).from_writer(Vec::new());
    if let Err(e) = writer.write_record(header) {
        return Err(e.to_string());
    }
    for row in rows {
        if let Err(e) = writer.write_record(row) {
            return Err(e.to_string());
        }
    }
    match writer.into_inner() {
        Ok(bytes) => String::from_utf8(bytes).map_err(|e| e.to_string()),
        Err(e) => Err(e.to_string()),
    }
}

/// The header and records of a comma-separated import, as the `csv` crate reads them.
pub fn import_from_csv(content: &str) -> (r: Result<(Vec<String>, Vec<Vec<String>>), String>)
    ensures
        match r {
            Ok((h, rows)) => delimited_records(content@, 44) == Some((strings_view(h@), records_view(rows@))),
            Err(_) => delimited_records(content@, 44) is None,
        },
{
    read_delimited(content, 44)
}

/// The text of a comma-separated export of a header and rows of text cells.
pub fn export_to_csv(header: &Vec<String>, rows: &Vec<Vec<String>>) -> (r: Result<String, String>)
    ensures
        match r {
            Ok(t) => delimited_text(strings_view(header@), records_view(rows@), 44) == Some(t@),
            Err(_) => delimited_text(strings_view(header@), records_view(rows@), 44) is None,
        },
{
    write_delimited(header, rows, 44)
}

/// The text of a tab-separated export of a header and rows of text cells.
pub fn export_to_tsv(header: &Vec<String>, rows: &Vec<Vec<String>>) -> (r: Result<String, String>)
    ensures
        match r {
            Ok(t) => delimited_text(strings_view(header@), records_view(rows@), 9) == Some(t@),
            Err(_) => delimited_text(strings_view(header@), records_view(rows@), 9) is None,
        },
{
    write_delimited(header, rows, 9)
}

/// Why documents could not be read from a text.
#[derive(Debug, PartialEq, Eq, Structural)]
pub enum TextDocumentsError {
    /// The format is neither `json` nor `jsonl`.
    UnsupportedFormat,
    /// The text (or one of its lines) is not JSON.
    InvalidJson,
}

/// The documents of a JSON text: the items of an array, else the one value.
pub open spec fn json_documents(content: Seq<char>) -> Option<Seq<JsonModel>> {
    match json_text_model(content) {
        Some(JsonModel::Array(items)) => Some(items),
        Some(v) => Some(seq![v]),
        None => None,
    }
}

/// The documents of JSON Lines: each line that is not blank read as JSON, in order;
/// nothing when one of them is not JSON.
pub open spec fn jsonl_documents(lines: Seq<Seq<char>>) -> Option<Seq<JsonModel>>
    decreases lines.len(),
{
    if lines.len() == 0 {
        Some(Seq::empty())
    } else if trimmed(lines.last()).len() == 0 {
        jsonl_documents(lines.drop_last())
    } else {
        match (jsonl_documents(lines.drop_last()), json_text_model(lines.last())) {
            (Some(d), Some(m)) => Some(d.push(m)),
            _ => None,
        }
    }
}

/// Once a prefix of the lines fails to read, every longer prefix fails too.
proof fn lemma_jsonl_none_extends(lines: Seq<Seq<char>>, k: int, n: int)
    requires
        0 <= k <= n <= lines.len(),
        jsonl_documents(lines.take(k)) is None,
    ensures
        jsonl_documents(lines.take(n)) is None,
    decreases n - k,
{
    if n > k {
        lemma_jsonl_none_extends(lines, k, n - 1);
        assert(lines.take(n).drop_last() =~= lines.take(n - 1));
    }
}

/// The documents of a text in the given format (`json` or `jsonl`).
pub open spec fn text_documents_spec(content: Seq<char>, format: Seq<char>) -> Result<
    Seq<JsonModel>,
    TextDocumentsError,
> {
    let docs = if format == "json"@ {
        json_documents(content)
    } else {
        jsonl_documents(split_on(content, '\n'))
    };
    if format != "json"@ && format != "jsonl"@ {
        Err(TextDocumentsError::UnsupportedFormat)
    } else {
        match docs {
            Some(d) => Ok(d),
            None => Err(TextDocumentsError::InvalidJson),
        }
    }
}

/// The documents that a batch reads from a text: a JSON array or value, or JSON
/// Lines, by format.
pub fn documents_from_text(content: &str, format: &str) -> (r: Result<Vec<JsonValue>, TextDocumentsError>)
    ensures
        match text_documents_spec(content@, format@) {
            Ok(d) => r matches Ok(docs) && items_model(docs@) == d,
            Err(e) => r matches Err(f) && f == e,
        },
{
    if str_equal(format, "json") {
        match parse_json_text(content) {
            None => Err(TextDocumentsError::InvalidJson),
            Some(v) => {
                let ghost m = v.model();
                match v {
                    JsonValue::Array(items) => {
                        assert(items_model(items@) =~= m->Array_0);
                        Ok(items)
                    },
                    other => {
                        let docs = vec![other];
                        assert(items_model(docs@) =~= seq![m]);
                        Ok(docs)
                    },
                }
            },
        }
    } else if str_equal(format, "jsonl") {
        let lines = split_pieces(content, '\n');
        let ghost ls = strings_view(lines@);
        let mut docs: Vec<JsonValue> = Vec::new();
        let mut i: usize = 0;
        while i < lines.len()
            invariant
                i <= lines@.len(),
                ls == strings_view(lines@),
                ls == split_on(content@, '\n'),
                format@ == "jsonl"@,
                format@ != "json"@,
                jsonl_documents(ls.take(i as int)) == Some(items_model(docs@)),
            decreases lines@.len() - i,
        {
            assert(ls.take((i + 1) as int).drop_last() =~= ls.take(i as int));
            assert(ls.take((i + 1) as int).last() == lines@[i as int]@);
            let t = trim(lines[i].as_str());
            if !t.as_str().is_empty() {
                match parse_json_text(lines[i].as_str()) {
                    Some(v) => {
                        let ghost before = docs@;
                        let ghost vm = v.model();
                        docs.push(v);
                        assert(items_model(docs@) =~= items_model(before).push(vm));
                    },
                    None => {
                        proof {
                            assert(trimmed(ls.take((i + 1) as int).last()).len() > 0);
                            assert(jsonl_documents(ls.take((i + 1) as int)) is None);
                            lemma_jsonl_none_extends(ls, i + 1, ls.len() as int);
                            assert(ls.take(ls.len() as int) =~= ls);
                        }
                        return Err(TextDocumentsError::InvalidJson);
                    },
                }
            }
            i = i + 1;
        }
        assert(ls.take(lines@.len() as int) =~= ls);
        Ok(docs)
    } else {
        Err(TextDocumentsError::UnsupportedFormat)
    }
}

/// The gzip stream that `flate2` writes for a text with the default compression
/// level and header.
pub uninterp spec fn gzip_of(data: Seq<char>) -> Seq<u8>;

/// `flate2::write::GzEncoder` over a `Vec` with the default level: the text's bytes
/// written and the stream finished. Writing into a `Vec` cannot fail, and the header
/// the encoder writes carries no time (its `mtime` is 0), so the bytes are those named
/// by `gzip_of`; the `Option` only carries the `io::Result`s of the calls.
#[verifier::external_body]
fn gzip_text(data: &str) -> (r: Option<Vec<u8>>)
    ensures
        r is Some,
        r matches Some(b) ==> b@ == gzip_of(data@),
{
    let mut encoder = flate2::write::GzEncoder::new(Vec::new(), flate2::Compression::default());
    std::io::Write::write_all(&mut encoder, data.as_bytes()).ok()?;
    encoder.finish().ok()
}

/// An export compressed with gzip.
pub fn compress_data(data: &str) -> (r: Vec<u8>)
    ensures
        r@ == gzip_of(data@),
{
    match gzip_text(data) {
        Some(b) => b,
        None => Vec::new(),
    }
}

/// A record made into a document: each field as a string under its column's name,
/// for the columns the header has, put in sorted place as a map insertion does.
pub open spec fn record_members(header: Seq<Seq<char>>, record: Seq<Seq<char>>) -> Seq<(Seq<char>, JsonModel)>
    decreases record.len(),
{
    if record.len() == 0 {
        Seq::empty()
    } else {
        let i = record.len() - 1;
        let prev = record_members(header, record.drop_last());
        if i < header.len() {
            inserted(prev, header[i], JsonModel::Str(record.last()))
        } else {
            prev
        }
    }
}

/// The documents of a tab-separated import: one object per record, every field a string.
pub fn text_documents(header: &Vec<String>, records: &Vec<Vec<String>>) -> (docs: Vec<JsonValue>)
    ensures
        docs@.len() == records@.len(),
        forall|k: int|
            0 <= k < records@.len() ==> #[trigger] docs@[k].model() == JsonModel::Object(
                record_members(strings_view(header@), strings_view(records@[k]@)),
            ),
{
    let mut docs: Vec<JsonValue> = Vec::new();
    let mut k: usize = 0;
    while k < records.len()
        invariant
            k <= records@.len(),
            docs@.len() == k,
            forall|j: int|
                0 <= j < k ==> #[trigger] docs@[j].model() == JsonModel::Object(
                    record_members(strings_view(header@), strings_view(records@[j]@)),
                ),
        decreases records@.len() - k,
    {
        let record = &records[k];
        let ghost rv = strings_view(record@);
        let mut m = no_members();
        let mut i: usize = 0;
        assert(rv.take(0) =~= Seq::<Seq<char>>::empty());
        while i < record.len()
            invariant
                i <= record@.len(),
                rv == strings_view(record@),
                members_model(m@) == record_members(strings_view(header@), rv.take(i as int)),
            decreases record@.len() - i,
        {
            assert(rv.take((i + 1) as int).drop_last() =~= rv.take(i as int));
            assert(rv.take((i + 1) as int).last() == record@[i as int]@);
            if i < header.len() {
                insert_member(&mut m, header[i].clone(), JsonValue::Str(record[i].clone()));
            }
            i = i + 1;
        }
        assert(rv.take(record@.len() as int) =~= rv);
        docs.push(object(m));
        k = k + 1;
    }
    docs
}

/// A cell of an exported table: plain text, or a structured value written as JSON.
#[derive(Debug)]
pub enum CsvCell {
    Text(String),
    Structured(JsonValue),
}

/// The model of a cell.
pub enum CellModel {
    Text(Seq<char>),
    Structured(JsonModel),
}

impl CsvCell {
    pub open spec fn model(&self) -> CellModel {
        match self {
            CsvCell::Text(t) => CellModel::Text(t@),
            CsvCell::Structured(v) => CellModel::Structured(v.model()),
        }
    }
}

/// The cell of a field: strings bare, numbers and booleans as written, nothing for
/// null or a missing field, arrays and objects as JSON.
pub open spec fn cell_spec(v: Option<JsonModel>) -> CellModel {
    match v {
        None => CellModel::Text(Seq::empty()),
        Some(JsonModel::Str(s)) => CellModel::Text(s),
        Some(JsonModel::Number(n)) => CellModel::Text(crate::stats::number_text(n)),
        Some(JsonModel::Bool(b)) => CellModel::Text(if b { "true"@ } else { "false"@ }),
        Some(JsonModel::Null) => CellModel::Text(Seq::empty()),
        Some(x) => CellModel::Structured(x),
    }
}

/// The field names of objects, collected in sorted order with none twice.
pub open spec fn union_members(acc: Seq<(Seq<char>, JsonModel)>, ms: Seq<(Seq<char>, JsonModel)>) -> Seq<
    (Seq<char>, JsonModel),
>
    decreases ms.len(),
{
    if ms.len() == 0 {
        acc
    } else {
        inserted(union_members(acc, ms.drop_last()), ms.last().0, JsonModel::Null)
    }
}

/// The field names of all object documents, in sorted order with none twice.
pub open spec fn field_union(docs: Seq<JsonModel>) -> Seq<(Seq<char>, JsonModel)>
    decreases docs.len(),
{
    if docs.len() == 0 {
        Seq::empty()
    } else {
        match docs.last() {
            JsonModel::Object(ms) => union_members(field_union(docs.drop_last()), ms),
            _ => field_union(docs.drop_last()),
        }
    }
}

/// The rows of the object documents: for each, the cell of each header field.
pub open spec fn table_rows(docs: Seq<JsonModel>, header: Seq<Seq<char>>) -> Seq<Seq<CellModel>>
    decreases docs.len(),
{
    if docs.len() == 0 {
        Seq::empty()
    } else {
        table_rows(docs.drop_last(), header) + match docs.last() {
            JsonModel::Object(_) => seq![header.map_values(|f: Seq<char>| cell_spec(lookup(docs.last(), f)))],
            _ => Seq::empty(),
        }
    }
}

/// The models of a list of rows of cells.
pub open spec fn cells_model(rows: Seq<Vec<CsvCell>>) -> Seq<Seq<CellModel>> {
    Seq::new(rows.len(), |i: int| Seq::new(rows[i]@.len(), |j: int| rows[i]@[j].model()))
}

fn cell_of(v: Option<&JsonValue>) -> (c: CsvCell)
    ensures
        c.model() == cell_spec(crate::config_tools::found(v)),
{
    match v {
        None => CsvCell::Text(String::new()),
        Some(JsonValue::Str(s)) => CsvCell::Text(s.clone()),
        Some(JsonValue::Number(n)) => {
            let mut t = String::new();
            crate::stats::push_number(&mut t, n);
            assert(t@ =~= crate::stats::number_text(n.model()));
            CsvCell::Text(t)
        },
        Some(JsonValue::Bool(b)) => CsvCell::Text(owned(if *b { "true" } else { "false" })),
        Some(JsonValue::Null) => CsvCell::Text(String::new()),
        Some(x) => CsvCell::Structured(x.copy()),
    }
}

/// The documents of a tab-separated import: each record, as the `csv` crate reads
/// it, made into an object of strings named by the header.
pub fn import_from_tsv(content: &str) -> (r: Result<Vec<JsonValue>, String>)
    ensures
        match delimited_records(content@, 9) {
            Some((h, rows)) => r matches Ok(docs) && docs@.len() == rows.len() && forall|k: int|
                0 <= k < rows.len() ==> #[trigger] docs@[k].model() == JsonModel::Object(
                    record_members(h, rows[k]),
                ),
            None => r is Err,
        },
{
    match read_delimited(content, 9) {
        Ok((header, rows)) => {
            let docs = text_documents(&header, &rows);
            assert forall|k: int| 0 <= k < rows@.len() implies #[trigger] docs@[k].model() == JsonModel::Object(
                record_members(strings_view(header@), records_view(rows@)[k]),
            ) by {
                assert(records_view(rows@)[k] == strings_view(rows@[k]@));
            }
            Ok(docs)
        },
        Err(e) => Err(e),
    }
}

/// The table of an export: the sorted union of the object documents' field names,
/// and one row of cells per object document.
pub fn export_table(documents: &Vec<JsonValue>) -> (r: (Vec<String>, Vec<Vec<CsvCell>>))
    ensures
        strings_view(r.0@) == field_union(items_model(documents@)).map_values(
            |m: (Seq<char>, JsonModel)| m.0,
        ),
        cells_model(r.1@) == table_rows(items_model(documents@), strings_view(r.0@)),
{
    let ghost dm = items_model(documents@);
    let mut keys = no_members();
    let mut k: usize = 0;
    while k < documents.len()
        invariant
            k <= documents@.len(),
            dm == items_model(documents@),
            members_model(keys@) == field_union(dm.take(k as int)),
        decreases documents@.len() - k,
    {
        assert(dm.take((k + 1) as int).drop_last() =~= dm.take(k as int));
        assert(dm.take((k + 1) as int).last() == documents@[k as int].model());
        match &documents[k] {
            JsonValue::Object(members) => {
                let ghost ms = documents@[k as int].model()->Object_0;
                let ghost start = members_model(keys@);
                let mut i: usize = 0;
                while i < members.len()
                    invariant
                        i <= members@.len(),
                        ms.len() == members@.len(),
                        forall|j: int| 0 <= j < members@.len() ==> #[trigger] ms[j] == (members@[j].0@, members@[j].1.model()),
                        members_model(keys@) == union_members(start, ms.take(i as int)),
                    decreases members@.len() - i,
                {
                    assert(ms[i as int] == (members@[i as int].0@, members@[i as int].1.model()));
                    assert(ms.take((i + 1) as int).drop_last() =~= ms.take(i as int));
                    insert_member(&mut keys, members[i].0.clone(), JsonValue::Null);
                    i = i + 1;
                }
                assert(ms.take(members@.len() as int) =~= ms);
            },
            _ => {},
        }
        k = k + 1;
    }
    assert(dm.take(documents@.len() as int) =~= dm);
    let mut header: Vec<String> = Vec::new();
    let mut i: usize = 0;
    while i < keys.len()
        invariant
            i <= keys@.len(),
            header@.len() == i,
            forall|j: int| 0 <= j < i ==> #[trigger] header@[j]@ == keys@[j].0@,
        decreases keys@.len() - i,
    {
        header.push(keys[i].0.clone());
        i = i + 1;
    }
    assert(strings_view(header@) =~= members_model(keys@).map_values(|m: (Seq<char>, JsonModel)| m.0));
    let ghost hv = strings_view(header@);
    let mut rows: Vec<Vec<CsvCell>> = Vec::new();
    let mut k: usize = 0;
    while k < documents.len()
        invariant
            k <= documents@.len(),
            dm == items_model(documents@),
            hv == strings_view(header@),
            cells_model(rows@) == table_rows(dm.take(k as int), hv),
        decreases documents@.len() - k,
    {
        assert(dm.take((k + 1) as int).drop_last() =~= dm.take(k as int));
        assert(dm.take((k + 1) as int).last() == documents@[k as int].model());
        let ghost before = cells_model(rows@);
        if documents[k].is_object() {
            let mut row: Vec<CsvCell> = Vec::new();
            let mut j: usize = 0;
            while j < header.len()
                invariant
                    j <= header@.len(),
                    k < documents@.len(),
                    hv == strings_view(header@),
                    row@.len() == j,
                    forall|q: int|
                        0 <= q < j ==> #[trigger] row@[q].model() == cell_spec(
                            lookup(documents@[k as int].model(), hv[q]),
                        ),
                decreases header@.len() - j,
            {
                let c = cell_of(documents[k].get(header[j].as_str()));
                row.push(c);
                j = j + 1;
            }
            let ghost rm = Seq::new(row@.len(), |q: int| row@[q].model());
            assert(rm =~= hv.map_values(|f: Seq<char>| cell_spec(lookup(documents@[k as int].model(), f))));
            rows.push(row);
            assert(cells_model(rows@) =~= before.push(rm));
        } else {
            assert(cells_model(rows@) =~= before);
        }
        k = k + 1;
    }
    assert(dm.take(documents@.len() as int) =~= dm);
    (header, rows)
}

} // verus!

verus! {

/// Items cut into consecutive batches of `size` (as `chunks(size)` cuts them): every
/// batch full but the last, which holds what is left.
pub open spec fn batches_of(s: Seq<Seq<char>>, size: nat) -> Seq<Seq<Seq<char>>>
    decreases s.len(),
{
    if s.len() == 0 || size == 0 {
        Seq::empty()
    } else if s.len() <= size {
        seq![s]
    } else {
        seq![s.take(size as int)] + batches_of(s.skip(size as int), size)
    }
}

/// Cutting items into batches loses nothing and repeats nothing: the batches, one after
/// another, are the items in their order; no batch is empty or larger than `size`.
pub proof fn lemma_batches_cover_once(s: Seq<Seq<char>>, size: nat)
    requires
        size > 0,
    ensures
        batches_of(s, size).flatten() == s,
        forall|i: int|
            0 <= i < batches_of(s, size).len() ==> 0 < (#[trigger] batches_of(s, size)[i]).len()
                <= size,
    decreases s.len(),
{
    if s.len() == 0 {
        assert(batches_of(s, size).flatten() =~= s);
    } else if s.len() <= size {
        assert(seq![s].flatten() == s + seq![s].drop_first().flatten());
        assert(seq![s].drop_first() =~= Seq::<Seq<Seq<char>>>::empty());
        assert(seq![s].flatten() =~= s);
    } else {
        let rest = s.skip(size as int);
        lemma_batches_cover_once(rest, size);
        let b = batches_of(s, size);
        assert(b.first() == s.take(size as int));
        assert(b.drop_first() =~= batches_of(rest, size));
        assert(s.take(size as int) + rest =~= s);
        assert forall|i: int| 0 <= i < b.len() implies 0 < (#[trigger] b[i]).len() <= size by {
            if i > 0 {
                assert(b[i] == batches_of(rest, size)[i - 1]);
            }
        }
    }
}

/// What a batch deletion does with its list of IDs.
pub struct DeletionPlan {
    /// The list is empty: nothing is deleted.
    pub nothing_to_delete: bool,
    /// The user is asked first: a non-empty list, neither forced nor a dry run.
    pub ask_first: bool,
    /// Only a dry run: the list is reported, nothing is deleted.
    pub dry_run_only: bool,
    /// The IDs in the batches their deletions are sent in.
    pub batches: Vec<Vec<String>>,
}

/// The batches a list of strings is cut into, each by its strings.
pub open spec fn batches_view(bs: Seq<Vec<String>>) -> Seq<Seq<Seq<char>>> {
    bs.map_values(|b: Vec<String>| strings_view(b@))
}

/// The plan of a batch deletion: whether there is anything to delete, whether to ask
/// first, whether to stop at a dry run, and the batches (of `batch_size`, 50 by
/// default) that the deletions go in. Each listed ID is in exactly one batch, in order.
/// A batch size of 0 cuts no batches (the deletion itself cannot be cut so).
pub fn deletion_plan(ids: &Vec<String>, force: bool, dry_run: bool, batch_size: Option<usize>) -> (p:
    DeletionPlan)
    ensures
        p.nothing_to_delete == (ids@.len() == 0),
        p.ask_first == (ids@.len() > 0 && !force && !dry_run),
        p.dry_run_only == (ids@.len() > 0 && dry_run),
        batches_view(p.batches@) == batches_of(
            strings_view(ids@),
            (match batch_size {
                Some(n) => n,
                None => 50usize,
            }) as nat,
        ),
        batch_size != Some(0usize) ==> batches_view(p.batches@).flatten() == strings_view(ids@),
{
    let size: usize = match batch_size {
        Some(n) => n,
        None => 50,
    };
    let ghost all = strings_view(ids@);
    let mut batches: Vec<Vec<String>> = Vec::new();
    let mut pos: usize = 0;
    let n = ids.len();
    if size == 0 {
        assert(batches_view(batches@) =~= batches_of(all, 0));
        return DeletionPlan {
            nothing_to_delete: n == 0,
            ask_first: n > 0 && !force && !dry_run,
            dry_run_only: n > 0 && dry_run,
            batches,
        };
    }
    assert(all.skip(0) =~= all);
    while pos < n
        invariant
            size > 0,
            n == ids@.len(),
            all == strings_view(ids@),
            pos <= n,
            batches_view(batches@) + batches_of(all.skip(pos as int), size as nat) == batches_of(
                all,
                size as nat,
            ),
        decreases n - pos,
    {
        let end = if n - pos <= size { n } else { pos + size };
        let mut batch: Vec<String> = Vec::new();
        let mut j: usize = pos;
        while j < end
            invariant
                pos <= j <= end <= n,
                n == ids@.len(),
                all == strings_view(ids@),
                strings_view(batch@) == all.subrange(pos as int, j as int),
            decreases end - j,
        {
            let ghost before = strings_view(batch@);
            let id = owned(ids[j].as_str());
            assert(id@ == all[j as int]);
            batch.push(id);
            assert(strings_view(batch@) =~= before.push(all[j as int]));
            j = j + 1;
            assert(strings_view(batch@) =~= all.subrange(pos as int, j as int));
        }
        let ghost rest = all.skip(pos as int);
        let ghost old_view = batches_view(batches@);
        batches.push(batch);
        assert(batches_view(batches@) =~= old_view.push(all.subrange(pos as int, end as int)));
        if n - pos <= size {
            assert(rest =~= all.subrange(pos as int, end as int));
            assert(all.skip(end as int) =~= Seq::<Seq<char>>::empty());
            assert(batches_of(all.skip(end as int), size as nat) =~= Seq::<Seq<Seq<char>>>::empty());
        } else {
            assert(rest.take(size as int) =~= all.subrange(pos as int, end as int));
            assert(rest.skip(size as int) =~= all.skip(end as int));
        }
        assert(batches_view(batches@) + batches_of(all.skip(end as int), size as nat) =~= old_view
            + batches_of(rest, size as nat));
        pos = end;
    }
    assert(all.skip(n as int) =~= Seq::<Seq<char>>::empty());
    assert(batches_view(batches@) =~= batches_of(all, size as nat));
    proof {
        lemma_batches_cover_once(all, size as nat);
    }
    DeletionPlan { nothing_to_delete: n == 0, ask_first: n > 0 && !force && !dry_run, dry_run_only: n > 0 && dry_run, batches }
}

} // verus!

verus! {

/// What an exported cell holds for a field's value: `true`/`false` for a boolean, the
/// text itself for a string, nothing for null or a missing field.
pub proof fn lemma_export_cells(docs: Seq<JsonModel>, header: Seq<Seq<char>>)
    requires
        forall|i: int| 0 <= i < docs.len() ==> (#[trigger] docs[i]) is Object,
    ensures
        table_rows(docs, header).len() == docs.len(),
        forall|i: int, j: int|
            0 <= i < docs.len() && 0 <= j < header.len() ==> {
                let cell = #[trigger] table_rows(docs, header)[i][j];
                &&& table_rows(docs, header)[i].len() == header.len()
                &&& (lookup(docs[i], header[j]) == Some(JsonModel::Bool(true)) ==> cell
                    == CellModel::Text("true"@))
                &&& (lookup(docs[i], header[j]) == Some(JsonModel::Bool(false)) ==> cell
                    == CellModel::Text("false"@))
                &&& (lookup(docs[i], header[j]) matches Some(JsonModel::Str(s)) ==> cell
                    == CellModel::Text(s))
                &&& (lookup(docs[i], header[j]) is None || lookup(docs[i], header[j]) == Some(
                    JsonModel::Null,
                ) ==> cell == CellModel::Text(Seq::empty()))
                &&& (lookup(docs[i], header[j]) matches Some(JsonModel::Number(n)) ==> cell
                    == CellModel::Text(crate::stats::number_text(n)))
                &&& (lookup(docs[i], header[j]) matches Some(JsonModel::Array(a)) ==> cell
                    == CellModel::Structured(JsonModel::Array(a)))
                &&& (lookup(docs[i], header[j]) matches Some(JsonModel::Object(o)) ==> cell
                    == CellModel::Structured(JsonModel::Object(o)))
            },
    decreases docs.len(),
{
    if docs.len() > 0 {
        let init = docs.drop_last();
        assert forall|i: int| 0 <= i < init.len() implies (#[trigger] init[i]) is Object by {
            assert(init[i] == docs[i]);
        }
        lemma_export_cells(init, header);
        assert(docs.last() == docs[docs.len() - 1]);
        let rows = table_rows(docs, header);
        let row = header.map_values(|f: Seq<char>| cell_spec(lookup(docs.last(), f)));
        assert(rows == table_rows(init, header) + seq![row]);
        assert forall|i: int, j: int|
            0 <= i < docs.len() && 0 <= j < header.len() implies {
                let cell = #[trigger] table_rows(docs, header)[i][j];
                &&& table_rows(docs, header)[i].len() == header.len()
                &&& (lookup(docs[i], header[j]) == Some(JsonModel::Bool(true)) ==> cell
                    == CellModel::Text("true"@))
                &&& (lookup(docs[i], header[j]) == Some(JsonModel::Bool(false)) ==> cell
                    == CellModel::Text("false"@))
                &&& (lookup(docs[i], header[j]) matches Some(JsonModel::Str(s)) ==> cell
                    == CellModel::Text(s))
                &&& (lookup(docs[i], header[j]) is None || lookup(docs[i], header[j]) == Some(
                    JsonModel::Null,
                ) ==> cell == CellModel::Text(Seq::empty()))
                &&& (lookup(docs[i], header[j]) matches Some(JsonModel::Number(n)) ==> cell
                    == CellModel::Text(crate::stats::number_text(n)))
                &&& (lookup(docs[i], header[j]) matches Some(JsonModel::Array(a)) ==> cell
                    == CellModel::Structured(JsonModel::Array(a)))
                &&& (lookup(docs[i], header[j]) matches Some(JsonModel::Object(o)) ==> cell
                    == CellModel::Structured(JsonModel::Object(o)))
            } by {
            if i < init.len() {
                assert(rows[i] == table_rows(init, header)[i]);
                assert(init[i] == docs[i]);
                assert(table_rows(init, header)[i][j] == table_rows(init, header)[i][j]);
            } else {
                assert(rows[i] == row);
                assert(row[j] == cell_spec(lookup(docs[i], header[j])));
            }
        }
    }
}

} // verus!
