//! The decisions behind a hand's database: which migrations to apply, the
//! queries that listing references and logs send (as fixed SQL pieces and
//! bound values), the texts written to and searched in the log, and the
//! summary of the database.

use vstd::prelude::*;
use crate::logs::{lemma_log_level_text_roundtrip, log_level_of_text, LogLevel};
use crate::reference::{lemma_ref_type_text_roundtrip, ref_type_of_text, RefT, Timestamp};
use crate::text::{concat2, concat3, contains_seq, decimal, push_i64};

verus! {

/// How many migrations the schema has.
pub const MIGRATION_COUNT: i64 = 1;

/// The schema that the first migration creates: the references, each path
/// at most once, and the log, with their indexes.
pub const INITIAL_SCHEMA: &'static str = "
    CREATE TABLE IF NOT EXISTS references (
        id        INTEGER    PRIMARY KEY AUTOINCREMENT,
        rt        TEXT       NOT NULL,
        path      TEXT       NOT NULL,
        created   DATETIME   DEFAULT CURRENT_TIMESTAMP,

        UNIQUE(path)
    );

    CREATE INDEX IF NOT EXISTS idx_references_path ON references (path);
    CREATE INDEX IF NOT EXISTS idx_references_created ON references (created);

    CREATE TABLE IF NOT EXISTS logs (
        id        INTEGER    PRIMARY KEY AUTOINCREMENT,
        level     TEXT       NOT NULL,
        message   TEXT       NOT NULL,
        created   DATETIME   DEFAULT CURRENT_TIMESTAMP
    );

    CREATE INDEX IF NOT EXISTS idx_logs_created ON logs (created);
    CREATE INDEX IF NOT EXISTS idx_logs_level ON logs (level);
    ";

/// The SQL of migration `version`, for versions 1 to `MIGRATION_COUNT`.
pub fn migration_script(version: i64) -> (r: Option<&'static str>)
    ensures
        r is Some <==> 1 <= version <= MIGRATION_COUNT,
        version == 1 ==> r == Some(INITIAL_SCHEMA),
{
    if version == 1 {
        Some(INITIAL_SCHEMA)
    } else {
        None
    }
}

/// The highest applied version, clamped to the versions that exist.
pub open spec fn applied_floor(last: int) -> int {
    if last < 0 {
        0
    } else if last > MIGRATION_COUNT {
        MIGRATION_COUNT as int
    } else {
        last
    }
}

/// The migrations still to apply after version `last`: every version from
/// 1 to `MIGRATION_COUNT` above `last`, in ascending order.
pub open spec fn pending_spec(last: int) -> Seq<int> {
    let lo = applied_floor(last);
    Seq::new((MIGRATION_COUNT - lo) as nat, |i: int| lo + 1 + i)
}

/// The versions to apply, given the highest version recorded as applied
/// (none when no migration has been recorded, which counts as 0).
pub fn pending_migrations(last_version: Option<i64>) -> (r: Vec<i64>)
    ensures
        r@.len() == pending_spec(if last_version is Some { last_version->0 as int } else { 0 }).len(),
        forall|k: int|
            0 <= k < r@.len() ==> r@[k] == pending_spec(
                if last_version is Some { last_version->0 as int } else { 0 },
            )[k],
{
    let last: i64 = match last_version {
        Some(v) => v,
        None => 0,
    };
    let ghost lo = applied_floor(last as int);
    let mut r: Vec<i64> = Vec::new();
    let mut i: i64 = 0;
    while i < MIGRATION_COUNT
        invariant
            0 <= i <= MIGRATION_COUNT,
            lo == applied_floor(last as int),
            r@.len() == if i <= lo { 0 } else { i - lo },
            forall|k: int| 0 <= k < r@.len() ==> r@[k] == lo + 1 + k,
        decreases MIGRATION_COUNT - i,
    {
        let version = i + 1;
        if version > last {
            r.push(version);
        }
        i = i + 1;
    }
    r
}

/// Law: a version is pending after `last` exactly when it exists and is
/// above `last`, and pending versions are in ascending order.
pub proof fn lemma_pending_exact(last: int, v: int)
    ensures
        pending_spec(last).contains(v) <==> (1 <= v <= MIGRATION_COUNT && v > last),
        forall|i: int, j: int|
            0 <= i < j < pending_spec(last).len() ==> pending_spec(last)[i] < pending_spec(last)[j],
{
    let p = pending_spec(last);
    let lo = applied_floor(last);
    if 1 <= v <= MIGRATION_COUNT && v > last {
        assert(p[v - lo - 1] == v);
    }
}

/// Law: once the last pending migration has been recorded, none is pending.
pub proof fn lemma_pending_done(last: int)
    requires
        pending_spec(last).len() > 0,
    ensures
        pending_spec(pending_spec(last).last()).len() == 0,
{
}

/// A value bound to a placeholder of a query.
pub enum BindValue {
    Int(i64),
    Text(String),
    Time(Timestamp),
}

/// A piece of a query: fixed SQL text, or a value bound in its place.
pub enum QueryPart {
    Sql(&'static str),
    Bind(BindValue),
}

/// A piece of a query, as plain values.
pub enum QueryPartView {
    Sql(Seq<char>),
    Int(i64),
    Text(Seq<char>),
    Time(Timestamp),
}

impl View for QueryPart {
    type V = QueryPartView;

    open spec fn view(&self) -> QueryPartView {
        match self {
            QueryPart::Sql(s) => QueryPartView::Sql(s@),
            QueryPart::Bind(BindValue::Int(i)) => QueryPartView::Int(*i),
            QueryPart::Bind(BindValue::Text(t)) => QueryPartView::Text(t@),
            QueryPart::Bind(BindValue::Time(t)) => QueryPartView::Time(*t),
        }
    }
}

/// The pieces of a query as plain values.
pub open spec fn parts_view(q: Seq<QueryPart>) -> Seq<QueryPartView> {
    q.map_values(|p: QueryPart| p@)
}

/// The pieces that a limit adds to a query: none without one, otherwise
/// ` LIMIT ` and the limit.
pub open spec fn limit_parts(limit: Option<u32>) -> Seq<QueryPartView> {
    match limit {
        Some(l) => seq![QueryPartView::Sql(" LIMIT "@), QueryPartView::Int(l as i64)],
        None => seq![],
    }
}

/// The pieces that an offset adds to a query.
pub open spec fn offset_parts(offset: Option<u32>) -> Seq<QueryPartView> {
    match offset {
        Some(o) => seq![QueryPartView::Sql(" OFFSET "@), QueryPartView::Int(o as i64)],
        None => seq![],
    }
}

fn push_part(q: &mut Vec<QueryPart>, p: QueryPart)
    ensures
        parts_view(final(q)@) == parts_view(old(q)@).push(p@),
{
    let ghost v = p@;
    q.push(p);
    assert(parts_view(q@) =~= parts_view(old(q)@).push(v));
}

fn push_limit(q: &mut Vec<QueryPart>, limit: Option<u32>)
    ensures
        parts_view(final(q)@) == parts_view(old(q)@) + limit_parts(limit),
{
    if let Some(l) = limit {
        push_part(q, QueryPart::Sql(" LIMIT "));
        push_part(q, QueryPart::Bind(BindValue::Int(l as i64)));
    }
    assert(parts_view(q@) =~= parts_view(old(q)@) + limit_parts(limit));
}

fn push_offset(q: &mut Vec<QueryPart>, offset: Option<u32>)
    ensures
        parts_view(final(q)@) == parts_view(old(q)@) + offset_parts(offset),
{
    if let Some(o) = offset {
        push_part(q, QueryPart::Sql(" OFFSET "));
        push_part(q, QueryPart::Bind(BindValue::Int(o as i64)));
    }
    assert(parts_view(q@) =~= parts_view(old(q)@) + offset_parts(offset));
}

/// The references of type `rt`, newest first, at most `limit` of them; the
/// type is bound as its stored text.
pub open spec fn refs_by_type_spec(rt: RefT, limit: Option<u32>) -> Seq<QueryPartView> {
    seq![
        QueryPartView::Sql("SELECT id, rt, path, created FROM references WHERE rt = "@),
        QueryPartView::Text(rt.text_spec()),
        QueryPartView::Sql(" ORDER BY created DESC"@),
    ] + limit_parts(limit)
}

pub fn refs_by_type_query(rt: RefT, limit: Option<u32>) -> (r: Vec<QueryPart>)
    ensures
        parts_view(r@) == refs_by_type_spec(rt, limit),
{
    let mut q: Vec<QueryPart> = Vec::new();
    push_part(&mut q, QueryPart::Sql("SELECT id, rt, path, created FROM references WHERE rt = "));
    push_part(&mut q, QueryPart::Bind(BindValue::Text(rt.as_text().to_owned())));
    push_part(&mut q, QueryPart::Sql(" ORDER BY created DESC"));
    push_limit(&mut q, limit);
    assert(parts_view(q@) =~= refs_by_type_spec(rt, limit));
    q
}

/// All log entries, newest first, at most `limit` of them after skipping
/// `offset`.
pub open spec fn all_logs_spec(limit: Option<u32>, offset: Option<u32>) -> Seq<QueryPartView> {
    seq![QueryPartView::Sql("SELECT id, level, message, created FROM logs ORDER BY created DESC"@)]
        + limit_parts(limit) + offset_parts(offset)
}

pub fn all_logs_query(limit: Option<u32>, offset: Option<u32>) -> (r: Vec<QueryPart>)
    ensures
        parts_view(r@) == all_logs_spec(limit, offset),
{
    let mut q: Vec<QueryPart> = Vec::new();
    push_part(
        &mut q,
        QueryPart::Sql("SELECT id, level, message, created FROM logs ORDER BY created DESC"),
    );
    push_limit(&mut q, limit);
    push_offset(&mut q, offset);
    assert(parts_view(q@) =~= all_logs_spec(limit, offset));
    q
}

/// The `count` most recent log entries: all entries, at most `count`, none skipped.
pub fn recent_logs_query(count: u32) -> (r: Vec<QueryPart>)
    ensures
        parts_view(r@) == all_logs_spec(Some(count), None),
{
    all_logs_query(Some(count), None)
}

/// The log entries of level `level`, newest first, at most `limit`.
pub open spec fn logs_by_level_spec(level: LogLevel, limit: Option<u32>) -> Seq<QueryPartView> {
    seq![
        QueryPartView::Sql("SELECT id, level, message, created FROM logs WHERE level = "@),
        QueryPartView::Text(level.text_spec()),
        QueryPartView::Sql(" ORDER BY created DESC"@),
    ] + limit_parts(limit)
}

pub fn logs_by_level_query(level: LogLevel, limit: Option<u32>) -> (r: Vec<QueryPart>)
    ensures
        parts_view(r@) == logs_by_level_spec(level, limit),
{
    let mut q: Vec<QueryPart> = Vec::new();
    push_part(
        &mut q,
        QueryPart::Sql("SELECT id, level, message, created FROM logs WHERE level = "),
    );
    push_part(&mut q, QueryPart::Bind(BindValue::Text(level.as_text().to_owned())));
    push_part(&mut q, QueryPart::Sql(" ORDER BY created DESC"));
    push_limit(&mut q, limit);
    assert(parts_view(q@) =~= logs_by_level_spec(level, limit));
    q
}

/// The `LIKE` pattern that finds messages holding `text`: `text` between `%` signs.
pub open spec fn search_pattern_spec(text: Seq<char>) -> Seq<char> {
    "%"@ + text + "%"@
}

pub fn search_pattern(text: &str) -> (r: String)
    ensures
        r@ == search_pattern_spec(text@),
{
    concat3("%", text, "%")
}

/// The log entries whose message holds `text`, newest first, at most `limit`.
pub open spec fn search_logs_spec(text: Seq<char>, limit: Option<u32>) -> Seq<QueryPartView> {
    seq![
        QueryPartView::Sql("SELECT id, level, message, created FROM logs WHERE message LIKE "@),
        QueryPartView::Text(search_pattern_spec(text)),
        QueryPartView::Sql(" ORDER BY created DESC"@),
    ] + limit_parts(limit)
}

pub fn search_logs_query(text: &str, limit: Option<u32>) -> (r: Vec<QueryPart>)
    ensures
        parts_view(r@) == search_logs_spec(text@, limit),
{
    let mut q: Vec<QueryPart> = Vec::new();
    push_part(
        &mut q,
        QueryPart::Sql("SELECT id, level, message, created FROM logs WHERE message LIKE "),
    );
    push_part(&mut q, QueryPart::Bind(BindValue::Text(search_pattern(text))));
    push_part(&mut q, QueryPart::Sql(" ORDER BY created DESC"));
    push_limit(&mut q, limit);
    assert(parts_view(q@) =~= search_logs_spec(text@, limit));
    q
}

/// The log entries created from `start` to `end`, newest first, at most `limit`.
pub open spec fn logs_in_range_spec(start: Timestamp, end: Timestamp, limit: Option<u32>) -> Seq<
    QueryPartView,
> {
    seq![
        QueryPartView::Sql("SELECT id, level, message, created FROM logs WHERE created BETWEEN "@),
        QueryPartView::Time(start),
        QueryPartView::Sql(" AND "@),
        QueryPartView::Time(end),
        QueryPartView::Sql(" ORDER BY created DESC"@),
    ] + limit_parts(limit)
}

pub fn logs_in_range_query(start: Timestamp, end: Timestamp, limit: Option<u32>) -> (r: Vec<
    QueryPart,
>)
    ensures
        parts_view(r@) == logs_in_range_spec(start, end, limit),
{
    let mut q: Vec<QueryPart> = Vec::new();
    push_part(
        &mut q,
        QueryPart::Sql("SELECT id, level, message, created FROM logs WHERE created BETWEEN "),
    );
    push_part(&mut q, QueryPart::Bind(BindValue::Time(start)));
    push_part(&mut q, QueryPart::Sql(" AND "));
    push_part(&mut q, QueryPart::Bind(BindValue::Time(end)));
    push_part(&mut q, QueryPart::Sql(" ORDER BY created DESC"));
    push_limit(&mut q, limit);
    assert(parts_view(q@) =~= logs_in_range_spec(start, end, limit));
    q
}

/// The two pieces that limiting a query to `l` rows appends.
pub open spec fn limit_tail(l: u32) -> Seq<QueryPartView> {
    seq![QueryPartView::Sql(" LIMIT "@), QueryPartView::Int(l as i64)]
}

/// Law: every listing query is limited the same way, whatever it selects:
/// without a limit it ends with its ordering, and with a limit `l` it is the
/// unlimited query followed by ` LIMIT ` and `l` bound as a value; for all
/// logs, an offset `o` is then followed by ` OFFSET ` and `o`.
pub proof fn lemma_limit_appends(
    rt: RefT,
    level: LogLevel,
    text: Seq<char>,
    start: Timestamp,
    end: Timestamp,
    l: u32,
    lim: Option<u32>,
    o: u32,
)
    ensures
        refs_by_type_spec(rt, None).last() == QueryPartView::Sql(" ORDER BY created DESC"@),
        refs_by_type_spec(rt, Some(l)) == refs_by_type_spec(rt, None) + limit_tail(l),
        logs_by_level_spec(level, None).last() == QueryPartView::Sql(" ORDER BY created DESC"@),
        logs_by_level_spec(level, Some(l)) == logs_by_level_spec(level, None) + limit_tail(l),
        search_logs_spec(text, None).last() == QueryPartView::Sql(" ORDER BY created DESC"@),
        search_logs_spec(text, Some(l)) == search_logs_spec(text, None) + limit_tail(l),
        logs_in_range_spec(start, end, None).last() == QueryPartView::Sql(
            " ORDER BY created DESC"@,
        ),
        logs_in_range_spec(start, end, Some(l)) == logs_in_range_spec(start, end, None)
            + limit_tail(l),
        all_logs_spec(None, None) == seq![
            QueryPartView::Sql(
                "SELECT id, level, message, created FROM logs ORDER BY created DESC"@,
            ),
        ],
        all_logs_spec(Some(l), None) == all_logs_spec(None, None) + limit_tail(l),
        all_logs_spec(lim, Some(o)) == all_logs_spec(lim, None) + seq![
            QueryPartView::Sql(" OFFSET "@),
            QueryPartView::Int(o as i64),
        ],
{
    assert(refs_by_type_spec(rt, None) + seq![] =~= refs_by_type_spec(rt, None));
    assert(logs_by_level_spec(level, None) + seq![] =~= logs_by_level_spec(level, None));
    assert(search_logs_spec(text, None) + seq![] =~= search_logs_spec(text, None));
    assert(logs_in_range_spec(start, end, None) + seq![] =~= logs_in_range_spec(start, end, None));
    assert(refs_by_type_spec(rt, Some(l)) =~= refs_by_type_spec(rt, None) + limit_tail(l));
    assert(logs_by_level_spec(level, Some(l)) =~= logs_by_level_spec(level, None) + limit_tail(l));
    assert(search_logs_spec(text, Some(l)) =~= search_logs_spec(text, None) + limit_tail(l));
    assert(logs_in_range_spec(start, end, Some(l)) =~= logs_in_range_spec(start, end, None)
        + limit_tail(l));
    assert(all_logs_spec(None, None) =~= seq![
        QueryPartView::Sql("SELECT id, level, message, created FROM logs ORDER BY created DESC"@),
    ]);
    assert(all_logs_spec(Some(l), None) =~= all_logs_spec(None, None) + limit_tail(l));
    assert(all_logs_spec(lim, None) + seq![] =~= all_logs_spec(lim, None));
    assert(all_logs_spec(lim, Some(o)) =~= all_logs_spec(lim, None) + seq![
        QueryPartView::Sql(" OFFSET "@),
        QueryPartView::Int(o as i64),
    ]);
}

/// Law: the level query binds the stored text of the requested level and
/// no other value, so it selects exactly the entries of that level.
pub proof fn lemma_level_query_selects_level(level: LogLevel, limit: Option<u32>)
    ensures
        logs_by_level_spec(level, limit).len() >= 3,
        logs_by_level_spec(level, limit)[1] matches QueryPartView::Text(t) && log_level_of_text(t)
            == Some(level),
        forall|i: int|
            0 <= i < logs_by_level_spec(level, limit).len() && i != 1 ==> !(
            #[trigger] logs_by_level_spec(level, limit)[i] is Text),
{
    lemma_log_level_text_roundtrip(level);
}

/// Law: the reference query binds the stored text of the requested type
/// and no other text, so it selects exactly the references of that type.
pub proof fn lemma_type_query_selects_type(rt: RefT, limit: Option<u32>)
    ensures
        refs_by_type_spec(rt, limit).len() >= 3,
        refs_by_type_spec(rt, limit)[1] matches QueryPartView::Text(t) && ref_type_of_text(t)
            == Some(rt),
        forall|i: int|
            0 <= i < refs_by_type_spec(rt, limit).len() && i != 1 ==> !(
            #[trigger] refs_by_type_spec(rt, limit)[i] is Text),
{
    lemma_ref_type_text_roundtrip(rt);
}

/// Law: the search query binds one pattern: a `%`, the searched text as
/// given, and a `%`, so it matches the messages that hold the text.
pub proof fn lemma_search_query_binds_text(text: Seq<char>, limit: Option<u32>)
    ensures
        search_logs_spec(text, limit).len() >= 3,
        search_logs_spec(text, limit)[1] == QueryPartView::Text(seq!['%'] + text + seq!['%']),
        forall|i: int|
            0 <= i < search_logs_spec(text, limit).len() && i != 1 ==> !(
            #[trigger] search_logs_spec(text, limit)[i] is Text),
{
    reveal_strlit("%");
    assert("%"@ + text + "%"@ =~= seq!['%'] + text + seq!['%']);
}

/// Law: the range query binds the start and then the end, between which
/// the entries' creation lies.
pub proof fn lemma_range_query_binds_bounds(start: Timestamp, end: Timestamp, limit: Option<u32>)
    ensures
        logs_in_range_spec(start, end, limit).len() >= 5,
        logs_in_range_spec(start, end, limit)[1] == QueryPartView::Time(start),
        logs_in_range_spec(start, end, limit)[2] == QueryPartView::Sql(" AND "@),
        logs_in_range_spec(start, end, limit)[3] == QueryPartView::Time(end),
{
}

/// The words that tie a log entry to reference `ref_id`.
pub open spec fn ref_marker_spec(ref_id: i64) -> Seq<char> {
    "Reference ID: "@ + decimal(ref_id as int)
}

/// The message logged when reference `ref_id` is added or removed with
/// the note `note`: the note, ` - `, and the reference's marker.
pub open spec fn ref_log_message_spec(note: Seq<char>, ref_id: i64) -> Seq<char> {
    note + " - "@ + ref_marker_spec(ref_id)
}

pub fn ref_log_message(note: &str, ref_id: i64) -> (r: String)
    ensures
        r@ == ref_log_message_spec(note@, ref_id),
{
    let mut r = concat3(note, " - ", "Reference ID: ");
    push_i64(&mut r, ref_id);
    r
}

/// The `LIKE` pattern that finds the log entries of reference `ref_id`.
pub open spec fn ref_log_pattern_spec(ref_id: i64) -> Seq<char> {
    "%"@ + ref_marker_spec(ref_id) + "%"@
}

pub fn ref_log_pattern(ref_id: i64) -> (r: String)
    ensures
        r@ == ref_log_pattern_spec(ref_id),
{
    let mut r = concat2("%", "Reference ID: ");
    push_i64(&mut r, ref_id);
    r.append("%");
    r
}

/// Law: the message logged for a reference holds the marker that the
/// pattern for that reference searches for, so the reference's log entries
/// are found by it.
pub proof fn lemma_ref_log_found(note: Seq<char>, ref_id: i64)
    ensures
        contains_seq(ref_log_message_spec(note, ref_id), ref_marker_spec(ref_id)),
{
    let m = ref_log_message_spec(note, ref_id);
    let k: int = note.len() as int + " - "@.len();
    assert(m.subrange(k, k + ref_marker_spec(ref_id).len()) =~= ref_marker_spec(ref_id));
}

/// Whether a change touched any row.
pub fn any_rows(rows_affected: u64) -> (r: bool)
    ensures
        r == (rows_affected > 0),
{
    rows_affected > 0
}

/// Whether a count of matching rows shows that one exists.
pub fn count_shows_some(count: i64) -> (r: bool)
    ensures
        r == (count > 0),
{
    count > 0
}

/// After deleting reference `ref_id`: whether it was deleted, and the
/// message to log, which is logged only when it was.
pub fn removal_outcome(rows_affected: u64, note: &str, ref_id: i64) -> (r: (bool, Option<String>))
    ensures
        r.0 == (rows_affected > 0),
        r.1 is Some <==> rows_affected > 0,
        r.1 matches Some(m) ==> m@ == ref_log_message_spec(note@, ref_id),
{
    if rows_affected > 0 {
        (true, Some(ref_log_message(note, ref_id)))
    } else {
        (false, None)
    }
}

/// The connection address of the database file at `path`.
pub fn db_url(path: &str) -> (r: String)
    ensures
        r@ == "sqlite://"@ + path@,
{
    concat2("sqlite://", path)
}

/// Figures about a hand's database.
#[derive(Debug, Clone)]
pub struct DBInfo {
    pub ref_count: i64,
    pub log_count: i64,
    pub db_size_bytes: i64,
    pub db_path: String,
}

impl DBInfo {
    /// The summary shown to the user.
    pub open spec fn describe_spec(&self) -> Seq<char> {
        "Database Info:\n\n            Path: "@ + self.db_path@
            + "\n\n            References: "@ + decimal(self.ref_count as int)
            + "\n\n            Logs: "@ + decimal(self.log_count as int)
            + "\n\n            Size: "@ + decimal(self.db_size_bytes as int) + " bytes"@
    }

    pub fn describe(&self) -> (r: String)
        ensures
            r@ == self.describe_spec(),
    {
        let mut r = concat2("Database Info:\n\n            Path: ", self.db_path.as_str());
        r.append("\n\n            References: ");
        push_i64(&mut r, self.ref_count);
        r.append("\n\n            Logs: ");
        push_i64(&mut r, self.log_count);
        r.append("\n\n            Size: ");
        push_i64(&mut r, self.db_size_bytes);
        r.append(" bytes");
        r
    }
}

} // verus!
