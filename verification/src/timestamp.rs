//! Timestamps and calendar dates as Unix epoch seconds, read by `chrono`.

use vstd::prelude::*;

verus! {

/// The strftime pattern of a calendar date, `YYYY-MM-DD`.
pub const CALENDAR_DATE_FORMAT: &'static str = "%Y-%m-%d";

/// The Unix epoch second of a timestamp as `chrono` reads it into a
/// `DateTime<Utc>`, or `None` where `chrono` refuses the text. `chrono`
/// reads RFC 3339 and a few relaxed forms of it.
pub uninterp spec fn rfc3339_epoch(text: Seq<char>) -> Option<i64>;

/// The Unix epoch second of the given time of day (taken as UTC) on the
/// date that `chrono` reads from `text` by the strftime pattern `format`;
/// `None` where `chrono` refuses the text, the pattern or the time of day.
pub uninterp spec fn naive_date_epoch(
    text: Seq<char>,
    format: Seq<char>,
    hour: u32,
    minute: u32,
    second: u32,
) -> Option<i64>;

/// The Unix epoch second of midnight UTC on a calendar date.
pub open spec fn calendar_date_epoch(text: Seq<char>) -> Option<i64> {
    naive_date_epoch(text, CALENDAR_DATE_FORMAT@, 0, 0, 0)
}

/// Calls `str::parse::<chrono::DateTime<chrono::Utc>>` and, on success,
/// `DateTime::timestamp`.
///
/// Trusted: the result depends on the text alone.
#[verifier::external_body]
pub(crate) fn datetime_epoch(text: &str) -> (epoch: Option<i64>)
    ensures
        epoch == rfc3339_epoch(text@),
{
    match text.parse::<chrono::DateTime<chrono::Utc>>() {
        Ok(moment) => Some(moment.timestamp()),
        Err(_) => None,
    }
}

/// Calls `chrono::NaiveDate::parse_from_str`, then `NaiveDate::and_hms_opt`,
/// and takes `timestamp` of the result as UTC.
///
/// Trusted: the result depends on the arguments alone.
#[verifier::external_body]
pub(crate) fn date_epoch(text: &str, format: &str, hour: u32, minute: u32, second: u32) -> (epoch:
    Option<i64>)
    ensures
        epoch == naive_date_epoch(text@, format@, hour, minute, second),
{
    match chrono::NaiveDate::parse_from_str(text, format) {
        Ok(date) => match date.and_hms_opt(hour, minute, second) {
            Some(moment) => Some(moment.and_utc().timestamp()),
            None => None,
        },
        Err(_) => None,
    }
}

/// Reads a calendar date (`YYYY-MM-DD`) as the Unix epoch second of its
/// midnight in UTC.
pub fn parse_calendar_date(text: &str) -> (epoch: Option<i64>)
    ensures
        epoch == calendar_date_epoch(text@),
{
    date_epoch(text, CALENDAR_DATE_FORMAT, 0, 0, 0)
}

} // verus!
