//! A user's history: the stored summaries as the history route answers
//! them, with creation times written as UTC timestamps.
use crate::errors::ApiError;
use vstd::prelude::*;

verus! {

/// A stored summary as the database gives it, with its creation time as
/// seconds and nanoseconds since the Unix epoch (UTC).
pub struct HistoryRow {
    pub id: i32,
    pub original: String,
    pub summary: String,
    pub created_secs: i64,
    pub created_nanos: u32,
}

/// A stored summary as the history route answers it.
pub struct HistoryItem {
    pub id: i32,
    pub original: String,
    pub summary: String,
    /// `YYYY-MM-DDTHH:MM:SS.mmmZ`.
    pub created_at: String,
}

/// The pattern with which creation times are written, before the `Z`.
pub open spec fn time_pattern() -> Seq<char> {
    "%Y-%m-%dT%H:%M:%S%.3f"@
}

/// What chrono gives for a time and a pattern: the UTC time
/// `DateTime::from_timestamp(secs, nanos)` (`None` when out of range),
/// written by `format(pattern)` on its naive UTC value.
pub uninterp spec fn chrono_utc_format(secs: i64, nanos: u32, pattern: Seq<char>) -> Option<
    Seq<char>,
>;

/// Calls `chrono::DateTime::from_timestamp(secs, nanos)` and writes the
/// naive UTC value with `format(pattern)`. Only the pattern of creation
/// times is admitted (an invalid pattern makes the writing panic). The
/// result is the named function `chrono_utc_format` of the arguments.
#[verifier::external_body]
fn format_utc(secs: i64, nanos: u32, pattern: &str) -> (r: Option<String>)
    requires
        pattern@ == time_pattern(),
    ensures
        match r {
            Some(s) => chrono_utc_format(secs, nanos, pattern@) == Some(s@),
            None => chrono_utc_format(secs, nanos, pattern@) is None,
        },
{
    match chrono::DateTime::from_timestamp(secs, nanos) {
        Some(t) => Some(t.naive_utc().format(pattern).to_string()),
        None => None,
    }
}

/// The creation time of a stored summary as the history route writes it:
/// the chrono rendering of the pattern, followed by `Z`.
pub open spec fn written_time(secs: i64, nanos: u32) -> Option<Seq<char>> {
    match chrono_utc_format(secs, nanos, time_pattern()) {
        Some(s) => Some(s.push('Z')),
        None => None,
    }
}

/// One stored summary as the history route answers it: the same id and
/// texts, and the written creation time.
pub open spec fn item_of_row(row: HistoryRow, item: HistoryItem) -> bool {
    &&& item.id == row.id
    &&& item.original@ == row.original@
    &&& item.summary@ == row.summary@
    &&& written_time(row.created_secs, row.created_nanos) == Some(item.created_at@)
}

/// Whether every stored summary has a creation time that can be written.
pub open spec fn all_times_written(rows: Seq<HistoryRow>) -> bool {
    forall|i: int|
        0 <= i < rows.len() ==> (#[trigger] written_time(rows[i].created_secs, rows[i].created_nanos)) is Some
}

/// One history item from a stored summary and the chrono rendering of its
/// creation time (`None` when the time could not be written): the same id
/// and texts, and the rendering followed by `Z`.
pub fn history_item(row: &HistoryRow, rendered: Option<String>) -> (r: Option<HistoryItem>)
    ensures
        match rendered {
            None => r is None,
            Some(s) => r matches Some(item) && item.id == row.id && item.original@
                == row.original@ && item.summary@ == row.summary@ && item.created_at@ == s@.push(
                'Z',
            ),
        },
{
    let mut created_at = match rendered {
        Some(s) => s,
        None => return None,
    };
    created_at.push('Z');
    Some(
        HistoryItem {
            id: row.id,
            original: row.original.clone(),
            summary: row.summary.clone(),
            created_at,
        },
    )
}

/// The history route's answer from the database's answer: a failed query
/// is "failed to fetch"; otherwise one item per stored summary, in the
/// database's order (newest first).
pub fn history_items(rows: Result<Vec<HistoryRow>, ()>) -> (r: Result<Vec<HistoryItem>, ApiError>)
    ensures
        match rows {
            Err(_) => r == Err::<Vec<HistoryItem>, ApiError>(ApiError::HistoryFetchFailed),
            Ok(rows) => match r {
                Ok(items) => {
                    &&& items@.len() == rows@.len()
                    &&& forall|i: int| 0 <= i < rows@.len() ==> item_of_row(rows@[i], #[trigger] items@[i])
                },
                Err(e) => e == ApiError::HistoryFetchFailed && !all_times_written(rows@),
            },
        },
{
    let list = match rows {
        Ok(list) => list,
        Err(_) => return Err(ApiError::HistoryFetchFailed),
    };
    let mut items: Vec<HistoryItem> = Vec::new();
    let mut i: usize = 0;
    while i < list.len()
        invariant
            i <= list@.len(),
            rows == Ok::<Vec<HistoryRow>, ()>(list),
            items@.len() == i,
            forall|k: int| 0 <= k < i ==> item_of_row(list@[k], #[trigger] items@[k]),
        decreases list.len() - i,
    {
        let row = &list[i];
        let rendered = format_utc(row.created_secs, row.created_nanos, "%Y-%m-%dT%H:%M:%S%.3f");
        match history_item(row, rendered) {
            Some(item) => items.push(item),
            None => {
                assert(written_time(list@[i as int].created_secs, list@[i as int].created_nanos)
                    is None);
                return Err(ApiError::HistoryFetchFailed);
            },
        }
        i = i + 1;
    }
    Ok(items)
}

} // verus!
