//! Database statistics as the `stats` command shows them: the output format,
//! the CSV flattening of nested statistics, and the layout of the table view.
use vstd::prelude::*;
use crate::format::{format_key_name, key_label};
use crate::json::{
    JsonModel, JsonNumber, JsonValue, NumberModel, lookup, lemma_member_index_range,
    lemma_member_index_snoc, members_model, push_member,
};
use crate::text::{
    decimal, owned, push_char, push_decimal, push_str, str_contains, contains_seq, str_equal,
    strings_view, split_on, split_pieces,
};

verus! {

/// The output formats of the listing and statistics commands.
#[derive(Clone, Copy, Debug, PartialEq, Eq, Structural)]
pub enum OutputFormat {
    Json,
    Jsonl,
    Yaml,
    Csv,
    Count,
    Table,
    Prometheus,
}

/// The name by which a format is asked for.
pub open spec fn format_name(f: OutputFormat) -> Seq<char> {
    match f {
        OutputFormat::Json => "json"@,
        OutputFormat::Jsonl => "jsonl"@,
        OutputFormat::Yaml => "yaml"@,
        OutputFormat::Csv => "csv"@,
        OutputFormat::Count => "count"@,
        OutputFormat::Table => "table"@,
        OutputFormat::Prometheus => "prometheus"@,
    }
}

/// Whether `name` asks for the format `f`.
pub fn names_format(name: &str, f: OutputFormat) -> (b: bool)
    ensures
        b == (name@ == format_name(f)),
{
    match f {
        OutputFormat::Json => str_equal(name, "json"),
        OutputFormat::Jsonl => str_equal(name, "jsonl"),
        OutputFormat::Yaml => str_equal(name, "yaml"),
        OutputFormat::Csv => str_equal(name, "csv"),
        OutputFormat::Count => str_equal(name, "count"),
        OutputFormat::Table => str_equal(name, "table"),
        OutputFormat::Prometheus => str_equal(name, "prometheus"),
    }
}

/// The first of `offered` that `name` asks for, and `true`; JSON and `false` when
/// `name` asks for none of them (the caller warns, then writes JSON).
pub open spec fn chosen_format(name: Seq<char>, offered: Seq<OutputFormat>) -> (OutputFormat, bool)
    decreases offered.len(),
{
    if offered.len() == 0 {
        (OutputFormat::Json, false)
    } else if name == format_name(offered[0]) {
        (offered[0], true)
    } else {
        chosen_format(name, offered.drop_first())
    }
}

/// The format that `name` asks for among `offered`, and whether it named one of them.
pub fn choose_format(name: &str, offered: &[OutputFormat]) -> (r: (OutputFormat, bool))
    ensures
        r == chosen_format(name@, offered@),
{
    let mut i: usize = 0;
    assert(offered@.skip(0) =~= offered@);
    while i < offered.len()
        invariant
            i <= offered@.len(),
            chosen_format(name@, offered@) == chosen_format(name@, offered@.skip(i as int)),
        decreases offered@.len() - i,
    {
        assert(offered@.skip(i as int)[0] == offered@[i as int]);
        assert(offered@.skip(i as int).drop_first() =~= offered@.skip((i + 1) as int));
        if names_format(name, offered[i]) {
            return (offered[i], true);
        }
        i = i + 1;
    }
    (OutputFormat::Json, false)
}

/// The formats of the `stats` command.
pub open spec fn stats_formats() -> Seq<OutputFormat> {
    seq![
        OutputFormat::Json,
        OutputFormat::Yaml,
        OutputFormat::Prometheus,
        OutputFormat::Csv,
        OutputFormat::Table,
    ]
}

/// The format in which `stats` writes, and whether `name` was one it knows.
pub fn stats_format(name: &str) -> (r: (OutputFormat, bool))
    ensures
        r == chosen_format(name@, stats_formats()),
{
    let offered: &[OutputFormat] = &[
        OutputFormat::Json,
        OutputFormat::Yaml,
        OutputFormat::Prometheus,
        OutputFormat::Csv,
        OutputFormat::Table,
    ];
    assert(offered@ =~= stats_formats());
    choose_format(name, offered)
}

/// The text of a JSON number as `serde_json` writes it.
pub open spec fn number_text(n: NumberModel) -> Seq<char> {
    match n {
        NumberModel::PosInt(u) => decimal(u),
        NumberModel::NegInt(i) => if i < 0 {
            seq!['-'] + decimal((-i) as nat)
        } else {
            decimal(i as nat)
        },
        NumberModel::Float(s) => s,
    }
}

/// Appends the text of a JSON number.
pub fn push_number(s: &mut String, n: &JsonNumber)
    ensures
        final(s)@ == old(s)@ + number_text(n.model()),
{
    match n {
        JsonNumber::PosInt(u) => push_decimal(s, *u),
        JsonNumber::NegInt(i) => {
            if *i < 0 {
                push_char(s, '-');
                let a: u64 = ((-(*i + 1)) as u64) + 1;
                push_decimal(s, a);
                assert(old(s)@ + (seq!['-'] + decimal((-*i) as nat)) =~= old(s)@.push('-') + decimal(
                    a as nat,
                ));
            } else {
                push_decimal(s, *i as u64);
            }
        },
        JsonNumber::Float(t) => push_str(s, t.as_str()),
    }
}

/// The path of a nested statistic: the parent's path, a dot, and the key.
pub open spec fn child_path(prefix: Seq<char>, key: Seq<char>) -> Seq<char> {
    if prefix.len() == 0 {
        key
    } else {
        prefix + seq!['.'] + key
    }
}

/// One CSV row: metric, value, category, and an empty unit.
pub open spec fn csv_row(metric: Seq<char>, value: Seq<char>, category: Seq<char>) -> Seq<char> {
    metric + seq![','] + value + seq![','] + category + seq![',']
}

/// The CSV rows of a statistic: one per number or string, found depth-first through
/// nested objects, each named by its dotted path; other values give none.
pub open spec fn csv_rows(prefix: Seq<char>, v: JsonModel, category: Seq<char>) -> Seq<Seq<char>>
    decreases v,
{
    match v {
        JsonModel::Object(ms) => csv_parts(prefix, ms, category).flatten(),
        JsonModel::Number(n) => seq![csv_row(prefix, number_text(n), category)],
        JsonModel::Str(s) => seq![csv_row(prefix, s, category)],
        _ => Seq::empty(),
    }
}

/// The CSV rows of each member of an object, member by member.
pub open spec fn csv_parts(prefix: Seq<char>, ms: Seq<(Seq<char>, JsonModel)>, category: Seq<char>) -> Seq<
    Seq<Seq<char>>,
>
    decreases ms,
{
    Seq::new(
        ms.len(),
        |i: int|
            if 0 <= i < ms.len() {
                csv_rows(child_path(prefix, ms[i].0), ms[i].1, category)
            } else {
                Seq::empty()
            },
    )
}

/// The dotted path of a nested statistic.
pub fn child_path_text(prefix: &str, key: &str) -> (p: String)
    ensures
        p@ == child_path(prefix@, key@),
{
    if prefix.unicode_len() == 0 {
        owned(key)
    } else {
        let mut p = owned(prefix);
        push_char(&mut p, '.');
        push_str(&mut p, key);
        p
    }
}

/// Appends the CSV rows of `v`, named from `prefix`.
pub fn append_csv_rows(prefix: &str, v: &JsonValue, category: &str, out: &mut Vec<String>)
    ensures
        strings_view(final(out)@) == strings_view(old(out)@) + csv_rows(prefix@, v.model(), category@),
    decreases v,
{
    match v {
        JsonValue::Object(members) => {
            let ghost ms = v.model()->Object_0;
            let ghost parts = csv_parts(prefix@, ms, category@);
            assert(csv_rows(prefix@, v.model(), category@) == parts.flatten());
            let mut i: usize = 0;
            while i < members.len()
                invariant
                    i <= members@.len(),
                    *v == JsonValue::Object(*members),
                    ms == v.model()->Object_0,
                    ms.len() == members@.len(),
                    parts.len() == ms.len(),
                    forall|k: int|
                        0 <= k < ms.len() ==> #[trigger] parts[k] == csv_rows(
                            child_path(prefix@, ms[k].0),
                            ms[k].1,
                            category@,
                        ),
                    strings_view(out@) == strings_view(old(out)@) + parts.take(i as int).flatten(),
                decreases members@.len() - i,
            {
                assert(ms[i as int] == (members@[i as int].0@, members@[i as int].1.model()));
                assert(decreases_to!(*v => v->Object_0));
                assert(decreases_to!(*members => members@));
                assert(decreases_to!(members@ => members@[i as int]));
                assert(decreases_to!(members@[i as int] => members@[i as int].1));
                let path = child_path_text(prefix, members[i].0.as_str());
                append_csv_rows(path.as_str(), &members[i].1, category, out);
                proof {
                    assert(parts.take((i + 1) as int) =~= parts.take(i as int).push(parts[i as int]));
                    parts.take(i as int).lemma_flatten_push(parts[i as int]);
                }
                i = i + 1;
            }
            assert(parts.take(members@.len() as int) =~= parts);
        },
        JsonValue::Number(n) => {
            let mut row = owned(prefix);
            push_char(&mut row, ',');
            push_number(&mut row, n);
            push_char(&mut row, ',');
            push_str(&mut row, category);
            push_char(&mut row, ',');
            assert(row@ =~= csv_rows(prefix@, v.model(), category@)[0]);
            let ghost before = out@;
            out.push(row);
            assert(strings_view(out@) =~= strings_view(before) + csv_rows(prefix@, v.model(), category@));
        },
        JsonValue::Str(s) => {
            let mut row = owned(prefix);
            push_char(&mut row, ',');
            push_str(&mut row, s.as_str());
            push_char(&mut row, ',');
            push_str(&mut row, category);
            push_char(&mut row, ',');
            assert(row@ =~= csv_rows(prefix@, v.model(), category@)[0]);
            let ghost before = out@;
            out.push(row);
            assert(strings_view(out@) =~= strings_view(before) + csv_rows(prefix@, v.model(), category@));
        },
        _ => {
            assert(strings_view(out@) =~= strings_view(old(out)@) + csv_rows(prefix@, v.model(), category@));
        },
    }
}

/// The CSV rows of the statistics, in the `general` category.
pub fn stats_csv_rows(stats: &JsonValue) -> (rows: Vec<String>)
    ensures
        strings_view(rows@) == csv_rows(Seq::empty(), stats.model(), "general"@),
{
    let mut rows: Vec<String> = Vec::new();
    let empty = String::new();
    append_csv_rows(empty.as_str(), stats, "general", &mut rows);
    assert(strings_view(rows@) =~= csv_rows(Seq::empty(), stats.model(), "general"@));
    rows
}

/// How a value in the statistics table is rendered.
#[derive(Clone, Copy, Debug, PartialEq, Eq, Structural)]
pub enum ValueStyle {
    /// A number with a thousands unit (K, M, B), other values as they are.
    Units,
    /// Milliseconds, shown in microseconds, milliseconds or seconds.
    Duration,
    /// A fraction, shown as a percentage.
    Ratio,
    /// Operations per second.
    Throughput,
    /// A byte count.
    Bytes,
    /// A percentage with a traffic-light mark.
    Percent,
}

/// The sections of the table whose values have their own rendering rules.
#[derive(Clone, Copy, Debug, PartialEq, Eq, Structural)]
pub enum SectionKind {
    Plain,
    Performance,
    System,
}

/// One line (or group of lines) of the statistics table.
#[derive(Debug)]
pub enum StatsRow {
    /// A section heading, written as it stands.
    Heading(String),
    /// `label: value`, indented by `indent` spaces, the value rendered in `style`.
    Entry { indent: usize, label: String, style: ValueStyle, value: JsonValue },
    /// The heading of one collection's statistics.
    Collection(String),
    /// A top-level statistic that is not an object, rendered with units under its heading.
    Bare(JsonValue),
    /// Statistics that are not an object at all.
    Fallback(JsonValue),
    /// An empty line.
    Blank,
}

/// The mathematical form of a table row.
pub enum RowModel {
    Heading(Seq<char>),
    Entry { indent: nat, label: Seq<char>, style: ValueStyle, value: JsonModel },
    Collection(Seq<char>),
    Bare(JsonModel),
    Fallback(JsonModel),
    Blank,
}

impl StatsRow {
    pub open spec fn model(&self) -> RowModel {
        match self {
            StatsRow::Heading(h) => RowModel::Heading(h@),
            StatsRow::Entry { indent, label, style, value } => RowModel::Entry {
                indent: *indent as nat,
                label: label@,
                style: *style,
                value: value.model(),
            },
            StatsRow::Collection(n) => RowModel::Collection(n@),
            StatsRow::Bare(v) => RowModel::Bare(v.model()),
            StatsRow::Fallback(v) => RowModel::Fallback(v.model()),
            StatsRow::Blank => RowModel::Blank,
        }
    }
}

/// The models of a list of rows.
pub open spec fn rows_model(rows: Seq<StatsRow>) -> Seq<RowModel> {
    Seq::new(rows.len(), |i: int| rows[i].model())
}

/// The style of a performance statistic, by its key.
pub open spec fn performance_style(key: Seq<char>) -> ValueStyle {
    if contains_seq(key, "time"@) || contains_seq(key, "latency"@) {
        ValueStyle::Duration
    } else if contains_seq(key, "rate"@) || contains_seq(key, "percentage"@) {
        ValueStyle::Ratio
    } else if contains_seq(key, "per_second"@) || contains_seq(key, "qps"@) {
        ValueStyle::Throughput
    } else {
        ValueStyle::Units
    }
}

/// The style of a system-health statistic, by its key.
pub open spec fn system_style(key: Seq<char>) -> ValueStyle {
    if contains_seq(key, "memory"@) || contains_seq(key, "usage"@) {
        ValueStyle::Bytes
    } else if contains_seq(key, "percentage"@) || contains_seq(key, "percent"@) {
        ValueStyle::Percent
    } else {
        ValueStyle::Units
    }
}

/// The style of a statistic in a section of the given kind.
pub open spec fn style_of(kind: SectionKind, key: Seq<char>) -> ValueStyle {
    match kind {
        SectionKind::Plain => ValueStyle::Units,
        SectionKind::Performance => performance_style(key),
        SectionKind::System => system_style(key),
    }
}

/// The style of a statistic in a section of the given kind.
pub fn value_style(kind: SectionKind, key: &str) -> (st: ValueStyle)
    ensures
        st == style_of(kind, key@),
{
    match kind {
        SectionKind::Plain => ValueStyle::Units,
        SectionKind::Performance => {
            if str_contains(key, "time") || str_contains(key, "latency") {
                ValueStyle::Duration
            } else if str_contains(key, "rate") || str_contains(key, "percentage") {
                ValueStyle::Ratio
            } else if str_contains(key, "per_second") || str_contains(key, "qps") {
                ValueStyle::Throughput
            } else {
                ValueStyle::Units
            }
        },
        SectionKind::System => {
            if str_contains(key, "memory") || str_contains(key, "usage") {
                ValueStyle::Bytes
            } else if str_contains(key, "percentage") || str_contains(key, "percent") {
                ValueStyle::Percent
            } else {
                ValueStyle::Units
            }
        },
    }
}

/// The entries of an object's members, labelled and styled.
pub open spec fn entries(ms: Seq<(Seq<char>, JsonModel)>, indent: nat, kind: SectionKind) -> Seq<RowModel> {
    Seq::new(
        ms.len(),
        |i: int|
            RowModel::Entry {
                indent,
                label: key_label(ms[i].0),
                style: style_of(kind, ms[i].0),
                value: ms[i].1,
            },
    )
}

/// The entries of a value's members when it is an object; none otherwise.
pub open spec fn object_entries(v: JsonModel, indent: nat, kind: SectionKind) -> Seq<RowModel> {
    match v {
        JsonModel::Object(ms) => entries(ms, indent, kind),
        _ => Seq::empty(),
    }
}

/// A named section: its heading, the entries of its statistics, and a blank line;
/// nothing when the statistics have no member of that name.
pub open spec fn section(stats: JsonModel, key: Seq<char>, heading: Seq<char>, kind: SectionKind) -> Seq<
    RowModel,
> {
    match lookup(stats, key) {
        Some(v) => seq![RowModel::Heading(heading)] + object_entries(v, 2, kind) + seq![RowModel::Blank],
        None => Seq::empty(),
    }
}

/// The rows of one collection: its heading, then its statistics.
pub open spec fn collection_rows(name: Seq<char>, v: JsonModel) -> Seq<RowModel> {
    seq![RowModel::Collection(name)] + object_entries(v, 4, SectionKind::Plain)
}

/// The rows of all collections, when the value is an object of them.
pub open spec fn collections_rows(v: JsonModel) -> Seq<RowModel> {
    match v {
        JsonModel::Object(cms) => Seq::new(cms.len(), |i: int| collection_rows(cms[i].0, cms[i].1)).flatten(),
        _ => Seq::empty(),
    }
}

/// The collections section, shown in detailed mode.
pub open spec fn collections_section(stats: JsonModel) -> Seq<RowModel> {
    match lookup(stats, "collections"@) {
        Some(v) => seq![RowModel::Heading("📚 Collections:"@)] + collections_rows(v) + seq![RowModel::Blank],
        None => Seq::empty(),
    }
}

/// The keys that have sections of their own.
pub open spec fn reserved_key(key: Seq<char>) -> bool {
    key == "storage"@ || key == "performance"@ || key == "system"@ || key == "collections"@
}

/// The section of a top-level statistic without a section of its own.
pub open spec fn other_section(key: Seq<char>, v: JsonModel) -> Seq<RowModel> {
    if reserved_key(key) {
        Seq::empty()
    } else {
        seq![RowModel::Heading("📊 "@ + key_label(key) + ":"@)] + match v {
            JsonModel::Object(nms) => entries(nms, 2, SectionKind::Plain),
            _ => seq![RowModel::Bare(v)],
        } + seq![RowModel::Blank]
    }
}

/// The sections of all other top-level statistics, in order.
pub open spec fn other_sections(ms: Seq<(Seq<char>, JsonModel)>) -> Seq<RowModel> {
    Seq::new(ms.len(), |i: int| other_section(ms[i].0, ms[i].1)).flatten()
}

/// The statistics table: storage, performance and system health first, the
/// collections in detailed mode, then every other statistic; statistics that are not
/// an object are shown whole.
pub open spec fn stats_table(stats: JsonModel, detailed: bool) -> Seq<RowModel> {
    match stats {
        JsonModel::Object(ms) => section(stats, "storage"@, "📁 Storage:"@, SectionKind::Plain) + section(
            stats,
            "performance"@,
            "⚡ Performance:"@,
            SectionKind::Performance,
        ) + section(stats, "system"@, "🔧 System Health:"@, SectionKind::System) + (if detailed {
            collections_section(stats)
        } else {
            Seq::empty()
        }) + other_sections(ms),
        _ => seq![RowModel::Fallback(stats)],
    }
}

fn push_row(rows: &mut Vec<StatsRow>, row: StatsRow)
    ensures
        rows_model(final(rows)@) == rows_model(old(rows)@).push(row.model()),
{
    let ghost before = rows@;
    rows.push(row);
    assert(rows_model(rows@) =~= rows_model(before).push(row.model()));
}

fn push_entries(rows: &mut Vec<StatsRow>, v: &JsonValue, indent: usize, kind: SectionKind)
    ensures
        rows_model(final(rows)@) == rows_model(old(rows)@) + object_entries(v.model(), indent as nat, kind),
{
    match v {
        JsonValue::Object(members) => {
            let ghost ms = v.model()->Object_0;
            let mut i: usize = 0;
            while i < members.len()
                invariant
                    i <= members@.len(),
                    ms == v.model()->Object_0,
                    ms.len() == members@.len(),
                    forall|k: int| 0 <= k < members@.len() ==> #[trigger] ms[k] == (members@[k].0@, members@[k].1.model()),
                    rows_model(rows@) == rows_model(old(rows)@) + entries(ms, indent as nat, kind).take(i as int),
                decreases members@.len() - i,
            {
                assert(ms[i as int] == (members@[i as int].0@, members@[i as int].1.model()));
                let label = format_key_name(members[i].0.as_str());
                let style = value_style(kind, members[i].0.as_str());
                let ghost before = rows_model(rows@);
                push_row(rows, StatsRow::Entry { indent, label, style, value: members[i].1.copy() });
                i = i + 1;
                assert(entries(ms, indent as nat, kind).take(i as int) =~= entries(ms, indent as nat, kind).take(
                    (i - 1) as int,
                ).push(entries(ms, indent as nat, kind)[i - 1]));
            }
            assert(entries(ms, indent as nat, kind).take(members@.len() as int) =~= entries(ms, indent as nat, kind));
        },
        _ => {
            assert(rows_model(rows@) =~= rows_model(old(rows)@) + object_entries(v.model(), indent as nat, kind));
        },
    }
}

fn push_section(rows: &mut Vec<StatsRow>, stats: &JsonValue, key: &str, heading: &str, kind: SectionKind)
    ensures
        rows_model(final(rows)@) == rows_model(old(rows)@) + section(stats.model(), key@, heading@, kind),
{
    match stats.get(key) {
        Some(v) => {
            push_row(rows, StatsRow::Heading(owned(heading)));
            push_entries(rows, v, 2, kind);
            push_row(rows, StatsRow::Blank);
            assert(rows_model(rows@) =~= rows_model(old(rows)@) + section(stats.model(), key@, heading@, kind));
        },
        None => {
            assert(rows_model(rows@) =~= rows_model(old(rows)@) + section(stats.model(), key@, heading@, kind));
        },
    }
}

fn push_collections(rows: &mut Vec<StatsRow>, stats: &JsonValue)
    ensures
        rows_model(final(rows)@) == rows_model(old(rows)@) + collections_section(stats.model()),
{
    match stats.get("collections") {
        Some(v) => {
            push_row(rows, StatsRow::Heading(owned("📚 Collections:")));
            let ghost after_heading = rows_model(rows@);
            match v {
                JsonValue::Object(members) => {
                    let ghost cms = v.model()->Object_0;
                    let ghost parts = Seq::new(cms.len(), |k: int| collection_rows(cms[k].0, cms[k].1));
                    let mut i: usize = 0;
                    while i < members.len()
                        invariant
                            i <= members@.len(),
                            cms == v.model()->Object_0,
                            cms.len() == members@.len(),
                            parts == Seq::new(cms.len(), |k: int| collection_rows(cms[k].0, cms[k].1)),
                            forall|k: int| 0 <= k < members@.len() ==> #[trigger] cms[k] == (members@[k].0@, members@[k].1.model()),
                            rows_model(rows@) == after_heading + parts.take(i as int).flatten(),
                        decreases members@.len() - i,
                    {
                        assert(cms[i as int] == (members@[i as int].0@, members@[i as int].1.model()));
                        let ghost before = rows_model(rows@);
                        push_row(rows, StatsRow::Collection(members[i].0.clone()));
                        push_entries(rows, &members[i].1, 4, SectionKind::Plain);
                        proof {
                            assert(rows_model(rows@) =~= before + parts[i as int]);
                            assert(parts.take((i + 1) as int) =~= parts.take(i as int).push(parts[i as int]));
                            parts.take(i as int).lemma_flatten_push(parts[i as int]);
                        }
                        i = i + 1;
                    }
                    assert(parts.take(members@.len() as int) =~= parts);
                    assert(collections_rows(v.model()) == parts.flatten());
                },
                _ => {
                    assert(rows_model(rows@) =~= after_heading + collections_rows(v.model()));
                },
            }
            push_row(rows, StatsRow::Blank);
            assert(rows_model(rows@) =~= rows_model(old(rows)@) + collections_section(stats.model()));
        },
        None => {
            assert(rows_model(rows@) =~= rows_model(old(rows)@) + collections_section(stats.model()));
        },
    }
}

/// Whether a key has a section of its own.
pub fn is_reserved_key(key: &str) -> (b: bool)
    ensures
        b == reserved_key(key@),
{
    str_equal(key, "storage") || str_equal(key, "performance") || str_equal(key, "system") || str_equal(
        key,
        "collections",
    )
}

fn push_other_section(rows: &mut Vec<StatsRow>, key: &str, v: &JsonValue)
    ensures
        rows_model(final(rows)@) == rows_model(old(rows)@) + other_section(key@, v.model()),
{
    if is_reserved_key(key) {
        assert(rows_model(rows@) =~= rows_model(old(rows)@) + other_section(key@, v.model()));
        return;
    }
    let mut heading = owned("📊 ");
    let label = format_key_name(key);
    push_str(&mut heading, label.as_str());
    push_str(&mut heading, ":");
    push_row(rows, StatsRow::Heading(heading));
    let ghost after_heading = rows_model(rows@);
    if v.is_object() {
        push_entries(rows, v, 2, SectionKind::Plain);
    } else {
        push_row(rows, StatsRow::Bare(v.copy()));
    }
    push_row(rows, StatsRow::Blank);
    assert(rows_model(rows@) =~= rows_model(old(rows)@) + other_section(key@, v.model()));
}

/// The rows of the statistics table, in order.
pub fn stats_table_rows(stats: &JsonValue, detailed: bool) -> (rows: Vec<StatsRow>)
    ensures
        rows_model(rows@) == stats_table(stats.model(), detailed),
{
    let mut rows: Vec<StatsRow> = Vec::new();
    assert(rows_model(rows@) =~= Seq::empty());
    match stats {
        JsonValue::Object(members) => {
            push_section(&mut rows, stats, "storage", "📁 Storage:", SectionKind::Plain);
            push_section(&mut rows, stats, "performance", "⚡ Performance:", SectionKind::Performance);
            push_section(&mut rows, stats, "system", "🔧 System Health:", SectionKind::System);
            if detailed {
                push_collections(&mut rows, stats);
            }
            let ghost head = rows_model(rows@);
            let ghost ms = stats.model()->Object_0;
            let ghost parts = Seq::new(ms.len(), |k: int| other_section(ms[k].0, ms[k].1));
            let mut i: usize = 0;
            while i < members.len()
                invariant
                    i <= members@.len(),
                    ms == stats.model()->Object_0,
                    ms.len() == members@.len(),
                    parts == Seq::new(ms.len(), |k: int| other_section(ms[k].0, ms[k].1)),
                    forall|k: int| 0 <= k < members@.len() ==> #[trigger] ms[k] == (members@[k].0@, members@[k].1.model()),
                    rows_model(rows@) == head + parts.take(i as int).flatten(),
                decreases members@.len() - i,
            {
                assert(ms[i as int] == (members@[i as int].0@, members@[i as int].1.model()));
                let ghost before = rows_model(rows@);
                push_other_section(&mut rows, members[i].0.as_str(), &members[i].1);
                proof {
                    assert(parts.take((i + 1) as int) =~= parts.take(i as int).push(parts[i as int]));
                    parts.take(i as int).lemma_flatten_push(parts[i as int]);
                }
                i = i + 1;
            }
            assert(parts.take(members@.len() as int) =~= parts);
            assert(rows_model(rows@) =~= stats_table(stats.model(), detailed));
        },
        _ => {
            push_row(&mut rows, StatsRow::Fallback(stats.copy()));
            assert(rows_model(rows@) =~= stats_table(stats.model(), detailed));
        },
    }
    rows
}

} // verus!

verus! {

/// The members of an object without those named `key`, in order.
pub open spec fn members_without(ms: Seq<(Seq<char>, JsonModel)>, key: Seq<char>) -> Seq<
    (Seq<char>, JsonModel),
>
    decreases ms.len(),
{
    if ms.len() == 0 {
        ms
    } else {
        let rest = members_without(ms.drop_last(), key);
        if ms.last().0 == key {
            rest
        } else {
            rest.push(ms.last())
        }
    }
}

proof fn lemma_lookup_without(ms: Seq<(Seq<char>, JsonModel)>, key: Seq<char>, k: Seq<char>)
    requires
        k != key,
    ensures
        lookup(JsonModel::Object(members_without(ms, key)), k) == lookup(JsonModel::Object(ms), k),
    decreases ms.len(),
{
    if ms.len() > 0 {
        let p = ms.drop_last();
        let x = ms.last();
        let w = members_without(p, key);
        lemma_lookup_without(p, key, k);
        assert(ms =~= p.push(x));
        lemma_member_index_snoc(p, x, k);
        lemma_member_index_range(p, k);
        lemma_member_index_range(w, k);
        if x.0 != key {
            lemma_member_index_snoc(w, x, k);
        }
    }
}

proof fn lemma_other_sections_without(ms: Seq<(Seq<char>, JsonModel)>)
    ensures
        other_sections(members_without(ms, "collections"@)) == other_sections(ms),
    decreases ms.len(),
{
    if ms.len() > 0 {
        let p = ms.drop_last();
        let x = ms.last();
        let w = members_without(p, "collections"@);
        lemma_other_sections_without(p);
        let parts = Seq::new(ms.len(), |i: int| other_section(ms[i].0, ms[i].1));
        let pparts = Seq::new(p.len(), |i: int| other_section(p[i].0, p[i].1));
        assert(parts =~= pparts.push(other_section(x.0, x.1)));
        pparts.lemma_flatten_push(other_section(x.0, x.1));
        if x.0 == "collections"@ {
            assert(other_section(x.0, x.1) =~= Seq::<RowModel>::empty());
            assert(other_sections(ms) =~= other_sections(p));
        } else {
            let wx = w.push(x);
            let wparts = Seq::new(w.len(), |i: int| other_section(w[i].0, w[i].1));
            assert(Seq::new(wx.len(), |i: int| other_section(wx[i].0, wx[i].1)) =~= wparts.push(
                other_section(x.0, x.1),
            ));
            wparts.lemma_flatten_push(other_section(x.0, x.1));
        }
    }
}

/// Collection details appear only in detailed mode: the plain table of an object of
/// statistics is the same with or without its `collections` member, and when the
/// statistics have collections the detailed table shows their heading.
pub proof fn lemma_collections_only_when_detailed(ms: Seq<(Seq<char>, JsonModel)>)
    ensures
        stats_table(JsonModel::Object(ms), false) == stats_table(
            JsonModel::Object(members_without(ms, "collections"@)),
            false,
        ),
        lookup(JsonModel::Object(ms), "collections"@) is Some ==> stats_table(
            JsonModel::Object(ms),
            true,
        ).contains(RowModel::Heading("📚 Collections:"@)),
{
    reveal_strlit("collections");
    reveal_strlit("storage");
    reveal_strlit("performance");
    reveal_strlit("system");
    assert("storage"@.len() != "collections"@.len());
    assert("performance"@[0] != "collections"@[0]);
    assert("system"@.len() != "collections"@.len());
    let stats = JsonModel::Object(ms);
    let bare = JsonModel::Object(members_without(ms, "collections"@));
    lemma_lookup_without(ms, "collections"@, "storage"@);
    lemma_lookup_without(ms, "collections"@, "performance"@);
    lemma_lookup_without(ms, "collections"@, "system"@);
    lemma_other_sections_without(ms);
    assert(section(stats, "storage"@, "📁 Storage:"@, SectionKind::Plain) == section(
        bare,
        "storage"@,
        "📁 Storage:"@,
        SectionKind::Plain,
    ));
    if lookup(stats, "collections"@) is Some {
        let head = section(stats, "storage"@, "📁 Storage:"@, SectionKind::Plain) + section(
            stats,
            "performance"@,
            "⚡ Performance:"@,
            SectionKind::Performance,
        ) + section(stats, "system"@, "🔧 System Health:"@, SectionKind::System);
        let t = stats_table(stats, true);
        assert(t[head.len() as int] == RowModel::Heading("📚 Collections:"@));
    }
}

} // verus!

verus! {

/// The members named in order, each with its statistics; the first name the statistics
/// lack when there is one.
pub open spec fn focus_members(stats: JsonModel, names: Seq<Seq<char>>) -> Result<
    Seq<(Seq<char>, JsonModel)>,
    Seq<char>,
>
    decreases names.len(),
{
    if names.len() == 0 {
        Ok(Seq::empty())
    } else {
        match focus_members(stats, names.drop_last()) {
            Err(missing) => Err(missing),
            Ok(ms) => match lookup(stats, names.last()) {
                Some(v) => Ok(ms.push((names.last(), v))),
                None => Err(names.last()),
            },
        }
    }
}

/// The statistics that a `--category` focus shows: for one category its own
/// statistics; for several, separated by commas, an object of the named categories in
/// the order given. Refused with the first category that the statistics lack.
pub open spec fn focused_stats(stats: JsonModel, category: Seq<char>) -> Result<JsonModel, Seq<char>> {
    let names = split_on(category, ',');
    if names.len() == 1 {
        match lookup(stats, category) {
            Some(v) => Ok(v),
            None => Err(category),
        }
    } else {
        match focus_members(stats, names) {
            Ok(ms) => Ok(JsonModel::Object(ms)),
            Err(missing) => Err(missing),
        }
    }
}

/// Narrows statistics to the categories named in `category` (one, or several separated
/// by commas); the error is the first category not found.
pub fn focus_categories(stats: &JsonValue, category: &str) -> (r: Result<JsonValue, String>)
    ensures
        match r {
            Ok(v) => focused_stats(stats.model(), category@) == Ok::<JsonModel, Seq<char>>(v.model()),
            Err(e) => focused_stats(stats.model(), category@) == Err::<JsonModel, Seq<char>>(e@),
        },
{
    let names = split_pieces(category, ',');
    let ghost ns = split_on(category@, ',');
    if names.len() == 1 {
        proof {
            assert(ns.len() == 1);
            assert(ns[0] == category@) by {
                lemma_single_piece(category@, ',');
            }
        }
        return match stats.get(category) {
            Some(v) => Ok(v.copy()),
            None => Err(owned(category)),
        };
    }
    let mut members: Vec<(String, JsonValue)> = Vec::new();
    let mut i: usize = 0;
    assert(ns.take(0) =~= Seq::<Seq<char>>::empty());
    assert(members_model(members@) =~= Seq::<(Seq<char>, JsonModel)>::empty());
    while i < names.len()
        invariant
            i <= names@.len(),
            names@.len() != 1,
            strings_view(names@) == ns,
            ns == split_on(category@, ','),
            focus_members(stats.model(), ns.take(i as int)) == Ok::<
                Seq<(Seq<char>, JsonModel)>,
                Seq<char>,
            >(members_model(members@)),
        decreases names.len() - i,
    {
        let name = &names[i];
        assert(name@ == ns[i as int]);
        assert(ns.take((i + 1) as int).drop_last() =~= ns.take(i as int));
        assert(ns.take((i + 1) as int).last() == ns[i as int]);
        match stats.get(name.as_str()) {
            Some(v) => {
                push_member(&mut members, name.as_str(), v.copy());
            },
            None => {
                proof {
                    assert(focus_members(stats.model(), ns.take(i + 1)) == Err::<
                        Seq<(Seq<char>, JsonModel)>,
                        Seq<char>,
                    >(ns[i as int]));
                    lemma_focus_members_err_stays(stats.model(), ns, i as int + 1);
                }
                return Err(owned(name.as_str()));
            },
        }
        i = i + 1;
    }
    assert(ns.take(names@.len() as int) =~= ns);
    let out = JsonValue::Object(members);
    assert(out.model() == JsonModel::Object(members_model(members@))) by {
        assert(out.model()->Object_0 =~= members_model(members@));
    }
    Ok(out)
}

proof fn lemma_single_piece(s: Seq<char>, c: char)
    requires
        split_on(s, c).len() == 1,
    ensures
        split_on(s, c)[0] == s,
    decreases s.len(),
{
    if s.len() > 0 {
        let p = s.drop_last();
        if s.last() == c {
            lemma_pieces_nonempty(p, c);
        } else {
            lemma_pieces_nonempty(p, c);
            assert(split_on(p, c).len() == 1);
            lemma_single_piece(p, c);
            assert(s =~= p.push(s.last()));
        }
    }
}

proof fn lemma_pieces_nonempty(s: Seq<char>, c: char)
    ensures
        split_on(s, c).len() >= 1,
    decreases s.len(),
{
    if s.len() > 0 {
        lemma_pieces_nonempty(s.drop_last(), c);
    }
}

proof fn lemma_focus_members_err_stays(stats: JsonModel, names: Seq<Seq<char>>, k: int)
    requires
        0 < k <= names.len(),
        focus_members(stats, names.take(k)) is Err,
    ensures
        focus_members(stats, names) == focus_members(stats, names.take(k)),
    decreases names.len() - k,
{
    if k < names.len() {
        assert(names.take(k + 1).drop_last() =~= names.take(k));
        lemma_focus_members_err_stays(stats, names, k + 1);
    } else {
        assert(names.take(k) =~= names);
    }
}

} // verus!

verus! {

/// The style a performance statistic is shown in, by the words its key mentions: a
/// time or latency is a duration; else a rate or percentage is a ratio; else a count
/// per second or `qps` is a throughput; anything else a plain number with units.
pub open spec fn expected_performance_style(key: Seq<char>) -> ValueStyle {
    if contains_seq(key, "time"@) || contains_seq(key, "latency"@) {
        ValueStyle::Duration
    } else if contains_seq(key, "rate"@) || contains_seq(key, "percentage"@) {
        ValueStyle::Ratio
    } else if contains_seq(key, "per_second"@) || contains_seq(key, "qps"@) {
        ValueStyle::Throughput
    } else {
        ValueStyle::Units
    }
}

/// In the performance section of the statistics table, the row of the `i`-th
/// performance statistic holds its label, its value, and the style its key calls for:
/// a key that mentions a time or a latency is shown as a duration, and so on.
pub proof fn lemma_performance_durations(
    ms: Seq<(Seq<char>, JsonModel)>,
    pms: Seq<(Seq<char>, JsonModel)>,
    i: int,
    detailed: bool,
)
    requires
        lookup(JsonModel::Object(ms), "performance"@) == Some(JsonModel::Object(pms)),
        0 <= i < pms.len(),
    ensures
        contains_seq(pms[i].0, "time"@) || contains_seq(pms[i].0, "latency"@) ==> stats_table(
            JsonModel::Object(ms),
            detailed,
        ).contains(
            RowModel::Entry {
                indent: 2,
                label: key_label(pms[i].0),
                style: ValueStyle::Duration,
                value: pms[i].1,
            },
        ),
        stats_table(JsonModel::Object(ms), detailed).contains(
            RowModel::Entry {
                indent: 2,
                label: key_label(pms[i].0),
                style: expected_performance_style(pms[i].0),
                value: pms[i].1,
            },
        ),
{
    let stats = JsonModel::Object(ms);
    let st = section(stats, "storage"@, "📁 Storage:"@, SectionKind::Plain);
    let perf = section(stats, "performance"@, "⚡ Performance:"@, SectionKind::Performance);
    let t = stats_table(stats, detailed);
    let es = entries(pms, 2, SectionKind::Performance);
    assert(perf == seq![RowModel::Heading("⚡ Performance:"@)] + es + seq![RowModel::Blank]);
    assert(perf[1 + i] == es[i]);
    let k = st.len() + 1 + i;
    assert(t[k] == es[i]);
}

/// The style a system-health statistic is shown in: memory or usage is a byte count;
/// else a percentage is a percentage; anything else a plain number with units.
pub open spec fn expected_system_style(key: Seq<char>) -> ValueStyle {
    if contains_seq(key, "memory"@) || contains_seq(key, "usage"@) {
        ValueStyle::Bytes
    } else if contains_seq(key, "percentage"@) || contains_seq(key, "percent"@) {
        ValueStyle::Percent
    } else {
        ValueStyle::Units
    }
}

/// In the system-health section, the row of the `i`-th statistic holds its label, its
/// value and the style its key calls for; in the storage section every statistic is a
/// plain number with units.
pub proof fn lemma_system_and_storage_styles(
    ms: Seq<(Seq<char>, JsonModel)>,
    xms: Seq<(Seq<char>, JsonModel)>,
    i: int,
    detailed: bool,
)
    requires
        0 <= i < xms.len(),
    ensures
        lookup(JsonModel::Object(ms), "system"@) == Some(JsonModel::Object(xms)) ==> stats_table(
            JsonModel::Object(ms),
            detailed,
        ).contains(
            RowModel::Entry {
                indent: 2,
                label: key_label(xms[i].0),
                style: expected_system_style(xms[i].0),
                value: xms[i].1,
            },
        ),
        lookup(JsonModel::Object(ms), "storage"@) == Some(JsonModel::Object(xms)) ==> stats_table(
            JsonModel::Object(ms),
            detailed,
        ).contains(
            RowModel::Entry {
                indent: 2,
                label: key_label(xms[i].0),
                style: ValueStyle::Units,
                value: xms[i].1,
            },
        ),
{
    let stats = JsonModel::Object(ms);
    let st = section(stats, "storage"@, "📁 Storage:"@, SectionKind::Plain);
    let perf = section(stats, "performance"@, "⚡ Performance:"@, SectionKind::Performance);
    let sys = section(stats, "system"@, "🔧 System Health:"@, SectionKind::System);
    let t = stats_table(stats, detailed);
    if lookup(stats, "system"@) == Some(JsonModel::Object(xms)) {
        let es = entries(xms, 2, SectionKind::System);
        assert(sys == seq![RowModel::Heading("🔧 System Health:"@)] + es + seq![RowModel::Blank]);
        assert(sys[1 + i] == es[i]);
        assert(t[st.len() + perf.len() + 1 + i] == es[i]);
    }
    if lookup(stats, "storage"@) == Some(JsonModel::Object(xms)) {
        let es = entries(xms, 2, SectionKind::Plain);
        assert(st == seq![RowModel::Heading("📁 Storage:"@)] + es + seq![RowModel::Blank]);
        assert(st[1 + i] == es[i]);
        assert(t[1 + i] == es[i]);
    }
}

} // verus!
