//! The rate-limit bookkeeping that comes with every response.

use vstd::prelude::*;
use crate::decimal::{decimal_value, parse_decimal};
use crate::timestamp::{datetime_epoch, rfc3339_epoch};

verus! {

/// Name of the header that carries the requests left in the window.
pub const RATELIMIT_REMAINING_HEADER: &'static str = "x-ratelimit-remaining";

/// Name of the header that carries the time at which the window resets.
pub const RATELIMIT_RESET_HEADER: &'static str = "x-ratelimit-reset";

/// The rate-limit state of one target, as of its latest response.
#[derive(Debug, Clone, Copy, PartialEq, Eq, Structural)]
pub struct RateLimitSample {
    /// Requests left in the current window.
    pub remaining: i64,
    /// Unix epoch second at which the window resets.
    pub reset_at: i64,
}

/// The sample made of two parsed header values; `None` unless both parsed.
pub open spec fn sample_of(remaining: Option<i64>, reset_at: Option<i64>) -> Option<
    RateLimitSample,
> {
    match (remaining, reset_at) {
        (Some(remaining), Some(reset_at)) => Some(RateLimitSample { remaining, reset_at }),
        _ => None,
    }
}

/// The sample that two header values give: the first read as a base-10
/// integer, the second as a timestamp. `None` where either is absent or
/// malformed.
pub open spec fn header_sample(remaining: Option<Seq<char>>, reset: Option<Seq<char>>) -> Option<
    RateLimitSample,
> {
    match (remaining, reset) {
        (Some(remaining), Some(reset)) => sample_of(
            decimal_value(remaining),
            rfc3339_epoch(reset),
        ),
        _ => None,
    }
}

/// The text of an optional string.
pub open spec fn text_of(value: Option<String>) -> Option<Seq<char>> {
    match value {
        Some(text) => Some(text@),
        None => None,
    }
}

impl RateLimitSample {
    /// Puts two parsed header values together; `None` unless both parsed.
    pub fn from_parts(remaining: Option<i64>, reset_at: Option<i64>) -> (sample: Option<
        RateLimitSample,
    >)
        ensures
            sample == sample_of(remaining, reset_at),
    {
        match (remaining, reset_at) {
            (Some(remaining), Some(reset_at)) => Some(RateLimitSample { remaining, reset_at }),
            _ => None,
        }
    }

    /// Reads the two rate-limit headers of a response. A header that is
    /// absent or malformed leaves no sample at all.
    pub fn from_headers(remaining: &Option<String>, reset: &Option<String>) -> (sample: Option<
        RateLimitSample,
    >)
        ensures
            sample == header_sample(text_of(*remaining), text_of(*reset)),
    {
        let remaining = match remaining {
            Some(text) => parse_decimal(text.as_str()),
            None => None,
        };
        let reset_at = match reset {
            Some(text) => datetime_epoch(text.as_str()),
            None => None,
        };
        Self::from_parts(remaining, reset_at)
    }
}

} // verus!
