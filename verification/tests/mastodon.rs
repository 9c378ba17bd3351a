use mastodon_exporter::collectors::account::{normalise_outcome, record_account};
use mastodon_exporter::collectors::instance::record_instance;
use mastodon_exporter::fetch::FetchOutcome;
use mastodon_exporter::mastodon::{
    AccountInfo, AccountResponse, InstanceRegistrations, InstanceResponse,
};
use mastodon_exporter::metrics::Metrics;
use mastodon_exporter::ratelimit::RateLimitSample;

fn account(last_status_at: Option<&str>) -> AccountResponse {
    AccountResponse {
        username: "alice".to_string(),
        followers_count: 100,
        following_count: 50,
        statuses_count: 1234,
        last_status_at: last_status_at.map(|day| day.to_string()),
    }
}

fn sample() -> RateLimitSample {
    RateLimitSample { remaining: 7, reset_at: 1668989100 }
}

#[test]
fn a_document_with_a_day_is_normalised_to_its_midnight() {
    let info = AccountInfo::from_response(account(Some("2022-11-21"))).unwrap();
    assert_eq!(info.username, "alice");
    assert_eq!(info.followers_count, 100);
    assert_eq!(info.following_count, 50);
    assert_eq!(info.statuses_count, 1234);
    assert_eq!(info.last_status_at, Some(1668988800));
}

#[test]
fn a_document_without_a_day_is_taken_as_it_is() {
    let info = AccountInfo::from_response(account(None)).unwrap();
    assert_eq!(info.username, "alice");
    assert_eq!(info.last_status_at, None);
}

#[test]
fn a_document_with_a_day_that_is_no_date_is_refused() {
    assert!(AccountInfo::from_response(account(Some("2022-11-31"))).is_none());
    assert!(AccountInfo::from_response(account(Some(""))).is_none());
}

#[test]
fn normalising_takes_the_parsed_day_only_where_a_day_is_given() {
    let with_day = AccountInfo::normalise(account(Some("anything")), Some(86400)).unwrap();
    assert_eq!(with_day.last_status_at, Some(86400));
    assert!(AccountInfo::normalise(account(Some("anything")), None).is_none());
    let without_day = AccountInfo::normalise(account(None), Some(86400)).unwrap();
    assert_eq!(without_day.last_status_at, None);
    let neither = AccountInfo::normalise(account(None), None).unwrap();
    assert_eq!(neither.last_status_at, None);
}

#[test]
fn normalising_an_outcome_keeps_everything_but_the_document() {
    let success = normalise_outcome(FetchOutcome::Success {
        rate_limit: sample(),
        body: account(Some("1970-01-02")),
    });
    assert!(matches!(
        success,
        FetchOutcome::Success { rate_limit, body: AccountInfo { last_status_at: Some(86400), .. } }
            if rate_limit == sample()
    ));
    let undecoded =
        normalise_outcome(FetchOutcome::Success { rate_limit: sample(), body: account(Some("x")) });
    assert!(matches!(undecoded, FetchOutcome::DecodeError { rate_limit } if rate_limit == sample()));
    let missing = normalise_outcome(FetchOutcome::<AccountResponse>::NotFound { rate_limit: sample() });
    assert!(matches!(missing, FetchOutcome::NotFound { rate_limit } if rate_limit == sample()));
    let refused = normalise_outcome(FetchOutcome::<AccountResponse>::HttpError {
        rate_limit: sample(),
        status: 403,
        message: "403 Forbidden".to_string(),
    });
    assert!(matches!(
        refused,
        FetchOutcome::HttpError { status: 403, ref message, .. } if message == "403 Forbidden"
    ));
    assert!(matches!(
        normalise_outcome(FetchOutcome::<AccountResponse>::NetworkError),
        FetchOutcome::NetworkError
    ));
    assert!(matches!(
        normalise_outcome(FetchOutcome::<AccountResponse>::HeaderError),
        FetchOutcome::HeaderError
    ));
    assert!(matches!(
        normalise_outcome(FetchOutcome::<AccountResponse>::DecodeError { rate_limit: sample() }),
        FetchOutcome::DecodeError { .. }
    ));
    assert!(matches!(
        normalise_outcome(FetchOutcome::<AccountResponse>::TaskFailed),
        FetchOutcome::TaskFailed
    ));
}

#[test]
fn recording_an_outcome_writes_by_its_kind() {
    let mut metrics = Metrics::new().unwrap();
    record_account(&mut metrics, "mas.to", "1", &FetchOutcome::HeaderError);
    record_account(&mut metrics, "mas.to", "1", &FetchOutcome::NetworkError);
    record_account(&mut metrics, "mas.to", "1", &FetchOutcome::TaskFailed);
    assert_eq!(metrics.snapshot().unwrap(), "");

    record_account(&mut metrics, "mas.to", "1", &FetchOutcome::NotFound { rate_limit: sample() });
    let body = metrics.snapshot().unwrap();
    assert!(body.contains("mastodon_ratelimit_remaining{instance=\"mas.to\"} 7\n"));
    assert!(body.contains("mastodon_ratelimit_reset{instance=\"mas.to\"} 1668989100\n"));
    assert!(!body.contains("mastodon_account_"));

    let document = InstanceResponse {
        domain: "mas.to".to_string(),
        title: "mas.to".to_string(),
        version: "4.0.2".to_string(),
        registrations: InstanceRegistrations { enabled: false, approval_required: true },
    };
    record_instance(
        &mut metrics,
        "mas.to",
        &FetchOutcome::Success {
            rate_limit: RateLimitSample { remaining: 6, reset_at: 1668989100 },
            body: document,
        },
    );
    let body = metrics.snapshot().unwrap();
    assert!(body.contains("mastodon_ratelimit_remaining{instance=\"mas.to\"} 6\n"));
    assert!(body.contains("mastodon_registrations_enabled{instance=\"mas.to\"} 0\n"));
    assert!(body.contains("mastodon_registrations_approval_required{instance=\"mas.to\"} 1\n"));
}
