//! The process-wide set of gauges: one family per [`Series`], written by
//! label tuple with last-write-wins, and rendered as a scrape body.

use vstd::prelude::*;
use crate::registry::{
    encode_registry, exposition_text, family_of, new_registry, new_series, register_series,
    registered_families, registration_accepted, schema_accepted, series_samples, series_schema,
    series_set, texts, upsert, Family, GaugeSeries, Sample,
};
use crate::series::{series_order, Series, SERIES_COUNT};

verus! {

/// What the gauges hold: for each family, its samples by label key.
pub type MetricsView = Map<Series, Map<u64, Sample>>;

/// Why the gauges could not be set up or rendered.
#[derive(Debug, Clone, Copy, PartialEq, Eq, Structural)]
pub enum MetricsError {
    /// The name, help text or label names of a family were refused.
    SchemaRefused(Series),
    /// A family could not be registered for rendering.
    RegistrationRefused(Series),
    /// The encoder failed on the registered families.
    Encoding,
}

/// The gauges with no sample in any family.
pub open spec fn empty_view() -> MetricsView {
    Map::new(|s: Series| true, |s: Series| Map::<u64, Sample>::empty())
}

/// The gauges after `value` was written to `series` under `labels`.
pub open spec fn view_set(view: MetricsView, series: Series, labels: Seq<Seq<char>>, value: i64)
    -> MetricsView {
    view.insert(series, upsert(view[series], labels, value))
}

/// A family as it is handed to the encoder.
pub open spec fn family_in(view: MetricsView, series: Series) -> Family {
    Family { schema: series.schema(), samples: view[series] }
}

/// The families registered after the first `count` of them were offered in
/// order, or `None` if one of them was refused.
pub open spec fn registered_prefix(view: MetricsView, count: nat) -> Option<Seq<Family>>
    decreases count,
{
    if count == 0 {
        Some(Seq::empty())
    } else {
        match registered_prefix(view, (count - 1) as nat) {
            Some(families) => {
                let next = family_in(view, series_order()[count - 1]);
                if registration_accepted(families, next) {
                    Some(families.push(next))
                } else {
                    None
                }
            },
            None => None,
        }
    }
}

/// The scrape body for the gauges, or `None` where a family is refused or
/// the encoder fails.
pub open spec fn scrape_body(view: MetricsView) -> Option<Seq<char>> {
    match registered_prefix(view, SERIES_COUNT as nat) {
        Some(families) => exposition_text(families),
        None => None,
    }
}

/// Whether every family's schema is accepted for a new gauge family.
pub open spec fn all_schemas_accepted() -> bool {
    forall|s: Series| #[trigger] schema_accepted(s.name_text(), s.help_text(), s.label_names())
}

/// The nine gauge families.
pub struct Metrics {
    ratelimit_remaining: GaugeSeries,
    ratelimit_reset: GaugeSeries,
    info: GaugeSeries,
    registrations_enabled: GaugeSeries,
    registrations_approval_required: GaugeSeries,
    account_followers_count: GaugeSeries,
    account_following_count: GaugeSeries,
    account_statuses_count: GaugeSeries,
    account_last_status_at: GaugeSeries,
}

impl View for Metrics {
    type V = MetricsView;

    closed spec fn view(&self) -> MetricsView {
        Map::new(|s: Series| true, |s: Series| series_samples(self.series(s)))
    }
}

impl Metrics {
    /// The gauge family that holds a series.
    pub closed spec fn series(&self, series: Series) -> GaugeSeries {
        match series {
            Series::RatelimitRemaining => self.ratelimit_remaining,
            Series::RatelimitReset => self.ratelimit_reset,
            Series::Info => self.info,
            Series::RegistrationsEnabled => self.registrations_enabled,
            Series::RegistrationsApprovalRequired => self.registrations_approval_required,
            Series::AccountFollowersCount => self.account_followers_count,
            Series::AccountFollowingCount => self.account_following_count,
            Series::AccountStatusesCount => self.account_statuses_count,
            Series::AccountLastStatusAt => self.account_last_status_at,
        }
    }

    /// Every family keeps the schema of its series.
    #[verifier::type_invariant]
    closed spec fn schemas_fixed(&self) -> bool {
        &&& series_schema(self.ratelimit_remaining) == Series::RatelimitRemaining.schema()
        &&& series_schema(self.ratelimit_reset) == Series::RatelimitReset.schema()
        &&& series_schema(self.info) == Series::Info.schema()
        &&& series_schema(self.registrations_enabled) == Series::RegistrationsEnabled.schema()
        &&& series_schema(self.registrations_approval_required)
            == Series::RegistrationsApprovalRequired.schema()
        &&& series_schema(self.account_followers_count) == Series::AccountFollowersCount.schema()
        &&& series_schema(self.account_following_count) == Series::AccountFollowingCount.schema()
        &&& series_schema(self.account_statuses_count) == Series::AccountStatusesCount.schema()
        &&& series_schema(self.account_last_status_at) == Series::AccountLastStatusAt.schema()
    }

    fn make(series: Series) -> (made: Result<GaugeSeries, MetricsError>)
        ensures
            made.is_ok() == schema_accepted(
                series.name_text(),
                series.help_text(),
                series.label_names(),
            ),
            made matches Ok(family) ==> series_schema(family) == series.schema() && series_samples(
                family,
            ) == Map::<u64, Sample>::empty(),
            made matches Err(e) ==> e == MetricsError::SchemaRefused(series),
    {
        let names = series.labels();
        match new_series(series.name(), series.help(), &names) {
            Ok(family) => Ok(family),
            Err(_) => Err(MetricsError::SchemaRefused(series)),
        }
    }

    /// Sets up the nine families, each with the schema of its series and no
    /// sample. Fails with the first series whose schema is refused.
    pub fn new() -> (made: Result<Metrics, MetricsError>)
        ensures
            made.is_ok() == all_schemas_accepted(),
            made matches Ok(metrics) ==> metrics@ == empty_view(),
            made matches Err(e) ==> exists|s: Series|
                e == MetricsError::SchemaRefused(s) && !schema_accepted(
                    s.name_text(),
                    s.help_text(),
                    s.label_names(),
                ),
    {
        let ratelimit_remaining = match Self::make(Series::RatelimitRemaining) {
            Ok(family) => family,
            Err(e) => { return Err(e); },
        };
        let ratelimit_reset = match Self::make(Series::RatelimitReset) {
            Ok(family) => family,
            Err(e) => { return Err(e); },
        };
        let info = match Self::make(Series::Info) {
            Ok(family) => family,
            Err(e) => { return Err(e); },
        };
        let registrations_enabled = match Self::make(Series::RegistrationsEnabled) {
            Ok(family) => family,
            Err(e) => { return Err(e); },
        };
        let registrations_approval_required = match Self::make(
            Series::RegistrationsApprovalRequired,
        ) {
            Ok(family) => family,
            Err(e) => { return Err(e); },
        };
        let account_followers_count = match Self::make(Series::AccountFollowersCount) {
            Ok(family) => family,
            Err(e) => { return Err(e); },
        };
        let account_following_count = match Self::make(Series::AccountFollowingCount) {
            Ok(family) => family,
            Err(e) => { return Err(e); },
        };
        let account_statuses_count = match Self::make(Series::AccountStatusesCount) {
            Ok(family) => family,
            Err(e) => { return Err(e); },
        };
        let account_last_status_at = match Self::make(Series::AccountLastStatusAt) {
            Ok(family) => family,
            Err(e) => { return Err(e); },
        };
        let metrics = Metrics {
            ratelimit_remaining,
            ratelimit_reset,
            info,
            registrations_enabled,
            registrations_approval_required,
            account_followers_count,
            account_following_count,
            account_statuses_count,
            account_last_status_at,
        };
        assert(metrics@ =~= empty_view());
        Ok(metrics)
    }

    /// Writes `value` to `series` under `labels`, replacing what was written
    /// under them before; every other sample stays as it was.
    pub fn set_gauge(&mut self, series: Series, labels: &Vec<&str>, value: i64)
        requires
            labels@.len() == series.arity(),
        ensures
            final(self)@ == view_set(old(self)@, series, texts(labels@), value),
    {
        proof {
            use_type_invariant(&*self);
        }
        match series {
            Series::RatelimitRemaining => series_set(&mut self.ratelimit_remaining, labels, value),
            Series::RatelimitReset => series_set(&mut self.ratelimit_reset, labels, value),
            Series::Info => series_set(&mut self.info, labels, value),
            Series::RegistrationsEnabled => series_set(
                &mut self.registrations_enabled,
                labels,
                value,
            ),
            Series::RegistrationsApprovalRequired => series_set(
                &mut self.registrations_approval_required,
                labels,
                value,
            ),
            Series::AccountFollowersCount => series_set(
                &mut self.account_followers_count,
                labels,
                value,
            ),
            Series::AccountFollowingCount => series_set(
                &mut self.account_following_count,
                labels,
                value,
            ),
            Series::AccountStatusesCount => series_set(
                &mut self.account_statuses_count,
                labels,
                value,
            ),
            Series::AccountLastStatusAt => series_set(
                &mut self.account_last_status_at,
                labels,
                value,
            ),
        }
        assert(self@ =~= view_set(old(self)@, series, texts(labels@), value));
    }

    fn family(&self, series: Series) -> (family: &GaugeSeries)
        ensures
            *family == self.series(series),
    {
        match series {
            Series::RatelimitRemaining => &self.ratelimit_remaining,
            Series::RatelimitReset => &self.ratelimit_reset,
            Series::Info => &self.info,
            Series::RegistrationsEnabled => &self.registrations_enabled,
            Series::RegistrationsApprovalRequired => &self.registrations_approval_required,
            Series::AccountFollowersCount => &self.account_followers_count,
            Series::AccountFollowingCount => &self.account_following_count,
            Series::AccountStatusesCount => &self.account_statuses_count,
            Series::AccountLastStatusAt => &self.account_last_status_at,
        }
    }

    /// Renders every family with its current samples as a scrape body.
    pub fn snapshot(&self) -> (body: Result<String, MetricsError>)
        ensures
            match body {
                Ok(text) => scrape_body(self@) == Some(text@),
                Err(MetricsError::RegistrationRefused(s)) => registered_prefix(
                    self@,
                    SERIES_COUNT as nat,
                ) is None,
                Err(MetricsError::Encoding) => registered_prefix(self@, SERIES_COUNT as nat)
                    matches Some(families) && exposition_text(families) is None,
                Err(MetricsError::SchemaRefused(_)) => false,
            },
    {
        proof {
            use_type_invariant(self);
        }
        let mut registry = new_registry();
        let mut index: usize = 0;
        while index < SERIES_COUNT
            invariant
                index <= SERIES_COUNT,
                self.schemas_fixed(),
                registered_prefix(self@, index as nat) == Some(registered_families(registry)),
            decreases SERIES_COUNT - index,
        {
            let series = Series::at(index);
            let family = self.family(series);
            assert(family_of(*family) == family_in(self@, series));
            match register_series(&mut registry, family) {
                Ok(_) => {},
                Err(_) => {
                    proof {
                        lemma_refused_stays_refused(self@, (index + 1) as nat, SERIES_COUNT as nat);
                    }
                    return Err(MetricsError::RegistrationRefused(series));
                },
            }
            index = index + 1;
        }
        match encode_registry(&registry) {
            Ok(text) => Ok(text),
            Err(_) => Err(MetricsError::Encoding),
        }
    }
}

/// Once a family is refused, offering further families changes nothing.
pub proof fn lemma_refused_stays_refused(view: MetricsView, count: nat, later: nat)
    requires
        registered_prefix(view, count) is None,
        count <= later,
    ensures
        registered_prefix(view, later) is None,
    decreases later,
{
    if count < later {
        lemma_refused_stays_refused(view, count, (later - 1) as nat);
    }
}

} // verus!
