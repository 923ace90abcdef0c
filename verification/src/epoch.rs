//! The capture moment as seconds since the Unix epoch.

use chrono::{FixedOffset, NaiveDateTime, TimeZone};
use vstd::prelude::*;

verus! {

/// What `chrono` makes of a local date-time: `text` is parsed under the
/// strftime pattern `format` as a moment without a time zone, that moment is
/// taken as local time `east_seconds` east of UTC, and the result is its
/// number of whole seconds since 1970-01-01 00:00:00 UTC. `None` when `chrono`
/// rejects the text, the offset, or the moment as out of its range.
pub uninterp spec fn local_epoch_seconds(
    text: Seq<char>,
    format: Seq<char>,
    east_seconds: i32,
) -> Option<i64>;

/// Calls `NaiveDateTime::parse_from_str`, `FixedOffset::east_opt`,
/// `TimeZone::from_local_datetime` and `DateTime::timestamp` of `chrono`, in
/// this order, and gives up at the first that fails.
///
/// Nothing is proved of these; the contract only gives their combined result
/// a name. It depends on the three arguments alone: a fixed offset consults
/// neither the system's time zone nor its clock, and the numeric fields of a
/// pattern are read without a locale.
#[verifier::external_body]
pub(crate) fn parse_local_epoch(text: &str, format: &str, east_seconds: i32) -> (seconds: Option<i64>)
    ensures
        seconds == local_epoch_seconds(text@, format@, east_seconds),
{
    let local = NaiveDateTime::parse_from_str(text, format).ok()?;
    let offset = FixedOffset::east_opt(east_seconds)?;
    Some(offset.from_local_datetime(&local).single()?.timestamp())
}

} // verus!
