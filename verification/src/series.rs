//! The nine published gauge families and their label schemas.

use vstd::prelude::*;
use crate::registry::{texts, Schema};

verus! {

/// A published gauge family.
#[derive(Debug, Clone, Copy, PartialEq, Eq, Structural)]
pub enum Series {
    /// Requests left in the current rate-limit window of an instance.
    RatelimitRemaining,
    /// Epoch seconds at which the rate-limit window of an instance resets.
    RatelimitReset,
    /// Presence marker of an instance, labelled with its domain, title and version.
    Info,
    /// Whether registrations are enabled on an instance (0 or 1).
    RegistrationsEnabled,
    /// Whether registrations need approval on an instance (0 or 1).
    RegistrationsApprovalRequired,
    /// Followers of an account.
    AccountFollowersCount,
    /// Accounts followed by an account.
    AccountFollowingCount,
    /// Statuses of an account.
    AccountStatusesCount,
    /// Epoch seconds of the day an account last posted.
    AccountLastStatusAt,
}

/// How many gauge families there are.
pub const SERIES_COUNT: usize = 9;

/// The gauge families in the order in which they are registered.
pub open spec fn series_order() -> Seq<Series> {
    seq![
        Series::RatelimitRemaining,
        Series::RatelimitReset,
        Series::Info,
        Series::RegistrationsEnabled,
        Series::RegistrationsApprovalRequired,
        Series::AccountFollowersCount,
        Series::AccountFollowingCount,
        Series::AccountStatusesCount,
        Series::AccountLastStatusAt,
    ]
}

impl Series {
    /// The metric name of the family.
    pub open spec fn name_text(self) -> Seq<char> {
        match self {
            Series::RatelimitRemaining => "mastodon_ratelimit_remaining"@,
            Series::RatelimitReset => "mastodon_ratelimit_reset"@,
            Series::Info => "mastodon_info"@,
            Series::RegistrationsEnabled => "mastodon_registrations_enabled"@,
            Series::RegistrationsApprovalRequired => "mastodon_registrations_approval_required"@,
            Series::AccountFollowersCount => "mastodon_account_followers_count"@,
            Series::AccountFollowingCount => "mastodon_account_following_count"@,
            Series::AccountStatusesCount => "mastodon_account_statuses_count"@,
            Series::AccountLastStatusAt => "mastodon_account_last_status_at"@,
        }
    }

    /// The help text of the family.
    pub open spec fn help_text(self) -> Seq<char> {
        match self {
            Series::RatelimitRemaining => "Current remaining ratelimit of instance."@,
            Series::RatelimitReset => "Number of seconds since 1970 of ratelimit reset for instance."@,
            Series::Info => "General instance information."@,
            Series::RegistrationsEnabled => "Whether or not registrations are enabled on instance."@,
            Series::RegistrationsApprovalRequired => "Whether or not approval is required on instance."@,
            Series::AccountFollowersCount => "Number of followers for account."@,
            Series::AccountFollowingCount => "Number of accounts followed by account."@,
            Series::AccountStatusesCount => "Number of statuses for account."@,
            Series::AccountLastStatusAt => "Number of seconds since 1970 of last status for account."@,
        }
    }

    /// Whether the family is labelled by instance, account id and username.
    pub open spec fn is_account_series(self) -> bool {
        self == Series::AccountFollowersCount || self == Series::AccountFollowingCount || self
            == Series::AccountStatusesCount || self == Series::AccountLastStatusAt
    }

    /// The label names of the family, in the order in which values are given.
    pub open spec fn label_names(self) -> Seq<Seq<char>> {
        if self == Series::Info {
            seq!["instance"@, "domain"@, "title"@, "version"@]
        } else if self.is_account_series() {
            seq!["instance"@, "account_id"@, "username"@]
        } else {
            seq!["instance"@]
        }
    }

    /// How many label values a write to the family takes.
    pub open spec fn arity(self) -> nat {
        if self == Series::Info {
            4
        } else if self.is_account_series() {
            3
        } else {
            1
        }
    }

    /// Name, help text and label names of the family.
    pub open spec fn schema(self) -> Schema {
        Schema { name: self.name_text(), help: self.help_text(), label_names: self.label_names() }
    }

    /// The metric name of the family.
    pub fn name(self) -> (name: &'static str)
        ensures
            name@ == self.name_text(),
    {
        match self {
            Series::RatelimitRemaining => "mastodon_ratelimit_remaining",
            Series::RatelimitReset => "mastodon_ratelimit_reset",
            Series::Info => "mastodon_info",
            Series::RegistrationsEnabled => "mastodon_registrations_enabled",
            Series::RegistrationsApprovalRequired => "mastodon_registrations_approval_required",
            Series::AccountFollowersCount => "mastodon_account_followers_count",
            Series::AccountFollowingCount => "mastodon_account_following_count",
            Series::AccountStatusesCount => "mastodon_account_statuses_count",
            Series::AccountLastStatusAt => "mastodon_account_last_status_at",
        }
    }

    /// The help text of the family.
    pub fn help(self) -> (help: &'static str)
        ensures
            help@ == self.help_text(),
    {
        match self {
            Series::RatelimitRemaining => "Current remaining ratelimit of instance.",
            Series::RatelimitReset => "Number of seconds since 1970 of ratelimit reset for instance.",
            Series::Info => "General instance information.",
            Series::RegistrationsEnabled => "Whether or not registrations are enabled on instance.",
            Series::RegistrationsApprovalRequired => "Whether or not approval is required on instance.",
            Series::AccountFollowersCount => "Number of followers for account.",
            Series::AccountFollowingCount => "Number of accounts followed by account.",
            Series::AccountStatusesCount => "Number of statuses for account.",
            Series::AccountLastStatusAt => "Number of seconds since 1970 of last status for account.",
        }
    }

    /// The label names of the family, in the order in which values are given.
    pub fn labels(self) -> (names: Vec<&'static str>)
        ensures
            texts(names@) == self.label_names(),
            names@.len() == self.arity(),
    {
        let mut names: Vec<&'static str> = Vec::new();
        names.push("instance");
        match self {
            Series::Info => {
                names.push("domain");
                names.push("title");
                names.push("version");
            },
            Series::AccountFollowersCount
            | Series::AccountFollowingCount
            | Series::AccountStatusesCount
            | Series::AccountLastStatusAt => {
                names.push("account_id");
                names.push("username");
            },
            _ => {},
        }
        assert(texts(names@) =~= self.label_names());
        names
    }

    /// The family at a place in the registration order.
    pub(crate) fn at(index: usize) -> (series: Series)
        requires
            index < SERIES_COUNT,
        ensures
            series == series_order()[index as int],
    {
        if index == 0 {
            Series::RatelimitRemaining
        } else if index == 1 {
            Series::RatelimitReset
        } else if index == 2 {
            Series::Info
        } else if index == 3 {
            Series::RegistrationsEnabled
        } else if index == 4 {
            Series::RegistrationsApprovalRequired
        } else if index == 5 {
            Series::AccountFollowersCount
        } else if index == 6 {
            Series::AccountFollowingCount
        } else if index == 7 {
            Series::AccountStatusesCount
        } else {
            Series::AccountLastStatusAt
        }
    }
}

} // verus!
