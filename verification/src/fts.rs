//! Full-text matching, decided by SQLite's FTS5 through `rusqlite`.

use vstd::prelude::*;
use crate::records::{
    IndexEntry,
    IndexRow,
};

verus! {

/// The columns of the full-text index: a row is searched by its content and
/// its raw text, and carries peer, group and category along unindexed.
pub open spec fn index_columns_text() -> Seq<char> {
    "content, raw_message, user_id UNINDEXED, group_id UNINDEXED, post_type UNINDEXED"@
}

/// The columns of the full-text index, as an FTS5 table is declared with
/// them.
pub fn index_columns() -> (r: &'static str)
    ensures
        r@ == index_columns_text(),
{
    "content, raw_message, user_id UNINDEXED, group_id UNINDEXED, post_type UNINDEXED"
}

/// How many of one row FTS5 finds for `query` in a table declared with the
/// columns `columns` that holds that row alone: 1 where the row matches, 0
/// where it does not, `None` where FTS5 refuses the columns, the row or the
/// query.
pub uninterp spec fn fts5_match_count(
    columns: Seq<char>,
    query: Seq<char>,
    content: Seq<char>,
    raw_message: Seq<char>,
    user_id: int,
    group_id: int,
    post_type: Seq<char>,
) -> Option<int>;

/// Builds an FTS5 table of the given columns in memory with
/// `Connection::open_in_memory` and `Connection::execute`, stores the one row
/// in it and counts with `Connection::query_row` the rows that `MATCH` the
/// query. Any failure on the way gives `None`. Nothing is read from or written
/// to disk.
#[verifier::external_body]
fn count_matches(
    columns: &str,
    query: &str,
    content: &str,
    raw_message: &str,
    user_id: i64,
    group_id: i64,
    post_type: &str,
) -> (r: Option<i64>)
    ensures
        r is Some == fts5_match_count(
            columns@,
            query@,
            content@,
            raw_message@,
            user_id as int,
            group_id as int,
            post_type@,
        ) is Some,
        r is Some ==> r.unwrap() == fts5_match_count(
            columns@,
            query@,
            content@,
            raw_message@,
            user_id as int,
            group_id as int,
            post_type@,
        ).unwrap(),
{
    let db = rusqlite::Connection::open_in_memory().ok()?;
    db.execute(&format!("CREATE VIRTUAL TABLE doc USING fts5({})", columns), ()).ok()?;
    db.execute(
        "INSERT INTO doc (rowid, content, raw_message, user_id, group_id, post_type) VALUES (1, ?1, ?2, ?3, ?4, ?5)",
        (content, raw_message, user_id, group_id, post_type),
    ).ok()?;
    db.query_row("SELECT count(*) FROM doc WHERE doc MATCH ?1", (query, ), |row| row.get(0)).ok()
}

/// What FTS5 says of `query` and the indexed row `entry`: whether the row
/// matches, or `None` where FTS5 refuses the query.
pub open spec fn entry_matches(query: Seq<char>, entry: IndexRow) -> Option<bool> {
    match fts5_match_count(
        index_columns_text(),
        query,
        entry.content,
        entry.raw_message,
        entry.user_id,
        entry.group_id,
        entry.post_type,
    ) {
        Some(count) => Some(count > 0),
        None => None,
    }
}

/// What FTS5 says of `query` on a row with no text at all. A query that is
/// refused here is taken to be malformed.
pub open spec fn query_accepted(query: Seq<char>) -> bool {
    fts5_match_count(index_columns_text(), query, Seq::empty(), Seq::empty(), 0, 0, Seq::empty())
        is Some
}

/// Asks FTS5 whether `entry` matches `query`.
pub fn match_entry(query: &str, entry: &IndexEntry) -> (r: Option<bool>)
    ensures
        r == entry_matches(query@, entry@),
{
    match count_matches(
        index_columns(),
        query,
        entry.content.as_str(),
        entry.raw_message.as_str(),
        entry.user_id,
        entry.group_id,
        entry.post_type.as_str(),
    ) {
        Some(count) => Some(count > 0),
        None => None,
    }
}

/// Asks FTS5 whether it accepts `query` at all.
pub fn accepts(query: &str) -> (r: bool)
    ensures
        r == query_accepted(query@),
{
    let empty = String::new();
    count_matches(index_columns(), query, empty.as_str(), empty.as_str(), 0, 0, empty.as_str())
        .is_some()
}

} // verus!
