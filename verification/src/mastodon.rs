//! Decoded shapes of the two remote documents that are polled.

use vstd::prelude::*;
use crate::timestamp::{calendar_date_epoch, parse_calendar_date};

verus! {

/// Information about registering for an instance.
#[derive(Debug, Clone, Copy, PartialEq, Eq, Structural)]
pub struct InstanceRegistrations {
    /// Whether registrations are enabled.
    pub enabled: bool,
    /// Whether registrations require moderator approval.
    pub approval_required: bool,
}

/// The software instance of Mastodon running on a domain.
#[derive(Debug)]
pub struct InstanceResponse {
    /// The domain name of the instance.
    pub domain: String,
    /// The title of the website.
    pub title: String,
    /// The version of Mastodon installed on the instance.
    pub version: String,
    /// Information about registering for this website.
    pub registrations: InstanceRegistrations,
}

/// A user of Mastodon and their associated profile.
#[derive(Debug)]
pub struct AccountResponse {
    /// The username of the account, not including domain.
    pub username: String,
    /// The reported followers of this profile.
    pub followers_count: i64,
    /// The reported follows of this profile.
    pub following_count: i64,
    /// How many statuses are attached to this account.
    pub statuses_count: i64,
    /// When the most recent status was posted, as a calendar date
    /// (`YYYY-MM-DD`); `None` if the account never posted.
    pub last_status_at: Option<String>,
}

/// An account document with the day of the last status normalised to the
/// Unix epoch second of its midnight in UTC.
#[derive(Debug)]
pub struct AccountInfo {
    /// The username of the account, not including domain.
    pub username: String,
    /// The reported followers of this profile.
    pub followers_count: i64,
    /// The reported follows of this profile.
    pub following_count: i64,
    /// How many statuses are attached to this account.
    pub statuses_count: i64,
    /// Midnight UTC of the day of the last status; `None` if the account
    /// never posted.
    pub last_status_at: Option<i64>,
}

/// The account document with the given reading of its last-status day.
pub open spec fn with_last_status(response: AccountResponse, last_status_at: Option<i64>)
    -> AccountInfo {
    AccountInfo {
        username: response.username,
        followers_count: response.followers_count,
        following_count: response.following_count,
        statuses_count: response.statuses_count,
        last_status_at,
    }
}

/// The normalised account document, given what the day of the last status
/// parsed to where there is one. `None` where a day is given and did not
/// parse.
pub open spec fn normalised(response: AccountResponse, parsed_day: Option<i64>) -> Option<
    AccountInfo,
> {
    match response.last_status_at {
        None => Some(with_last_status(response, None)),
        Some(_) => match parsed_day {
            Some(epoch) => Some(with_last_status(response, Some(epoch))),
            None => None,
        },
    }
}

/// The normalised account document: `None` where the day of the last status
/// is given and is no calendar date.
pub open spec fn account_info_of(response: AccountResponse) -> Option<AccountInfo> {
    match response.last_status_at {
        None => normalised(response, None),
        Some(day) => normalised(response, calendar_date_epoch(day@)),
    }
}

impl AccountInfo {
    /// Normalises an account document, given what the day of its last status
    /// parsed to. A document without such a day is taken as it is; one with
    /// a day that did not parse is refused.
    pub fn normalise(response: AccountResponse, parsed_day: Option<i64>) -> (info: Option<
        AccountInfo,
    >)
        ensures
            info == normalised(response, parsed_day),
    {
        let last_status_at = match &response.last_status_at {
            None => None,
            Some(_) => match parsed_day {
                Some(epoch) => Some(epoch),
                None => { return None; },
            },
        };
        Some(
            AccountInfo {
                username: response.username,
                followers_count: response.followers_count,
                following_count: response.following_count,
                statuses_count: response.statuses_count,
                last_status_at,
            },
        )
    }

    /// Normalises an account document: reads the day of the last status,
    /// where there is one, as midnight UTC of that day.
    pub fn from_response(response: AccountResponse) -> (info: Option<AccountInfo>)
        ensures
            info == account_info_of(response),
    {
        let parsed_day = match &response.last_status_at {
            Some(day) => parse_calendar_date(day.as_str()),
            None => None,
        };
        Self::normalise(response, parsed_day)
    }
}

} // verus!
