//! Rendering an instant as human-readable text for responses.

use vstd::prelude::*;

verus! {

/// The text the calendar library prints for an instant, given in seconds
/// since the epoch. Determined by the second count alone.
pub uninterp spec fn timestamp_text_of(secs: int) -> Seq<char>;

/// Relies on chrono::DateTime::from_timestamp and the Display form of
/// chrono::NaiveDateTime (`YYYY-MM-DD HH:MM:SS`): a pure function of the
/// second count. Instants outside the calendar's range print as empty.
#[verifier::external_body]
pub(crate) fn format_timestamp(secs: i64) -> (r: String)
    ensures
        r@ == timestamp_text_of(secs as int),
{
    match chrono::DateTime::from_timestamp(secs, 0) {
        Some(dt) => dt.naive_utc().to_string(),
        None => String::new(),
    }
}

} // verus!
