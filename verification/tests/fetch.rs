use mastodon_exporter::fetch::{
    account_url, expects_body, instance_url, Exchange, FetchOutcome, Response, TargetKind,
};
use mastodon_exporter::ratelimit::RateLimitSample;

fn sample() -> RateLimitSample {
    RateLimitSample { remaining: 299, reset_at: 1668989100 }
}

fn response(status: u16, reset: &str, body: Option<u8>) -> Response<u8> {
    Response {
        status,
        reason: format!("status {}", status),
        ratelimit_remaining: Some("299".to_string()),
        ratelimit_reset: Some(reset.to_string()),
        body,
    }
}

#[test]
fn urls_name_the_two_endpoints() {
    assert_eq!(instance_url("mas.to"), "https://mas.to/api/v2/instance");
    assert_eq!(account_url("mas.to", "109"), "https://mas.to/api/v1/accounts/109");
    assert_eq!(instance_url(""), "https:///api/v2/instance");
}

#[test]
fn only_a_success_has_a_body_to_read() {
    assert!(expects_body(200));
    assert!(expects_body(204));
    assert!(expects_body(299));
    assert!(!expects_body(199));
    assert!(!expects_body(300));
    assert!(!expects_body(404));
    assert!(!expects_body(500));
}

#[test]
fn a_success_with_a_body_succeeds() {
    let outcome = FetchOutcome::judge(TargetKind::Instance, Some(sample()), 200, String::new(), Some(7u8));
    assert!(matches!(outcome, FetchOutcome::Success { rate_limit, body: 7 } if rate_limit == sample()));
}

#[test]
fn a_success_without_a_body_is_a_decode_error() {
    let outcome = FetchOutcome::<u8>::judge(TargetKind::Account, Some(sample()), 200, String::new(), None);
    assert!(matches!(outcome, FetchOutcome::DecodeError { rate_limit } if rate_limit == sample()));
}

#[test]
fn a_missing_account_is_not_found() {
    let outcome = FetchOutcome::<u8>::judge(TargetKind::Account, Some(sample()), 404, String::new(), None);
    assert!(matches!(outcome, FetchOutcome::NotFound { rate_limit } if rate_limit == sample()));
}

#[test]
fn a_missing_instance_is_an_http_error() {
    let outcome = FetchOutcome::<u8>::judge(
        TargetKind::Instance,
        Some(sample()),
        404,
        "Not Found".to_string(),
        None,
    );
    assert!(matches!(
        outcome,
        FetchOutcome::HttpError { rate_limit, status: 404, ref message }
            if rate_limit == sample() && message == "Not Found"
    ));
}

#[test]
fn other_statuses_are_http_errors() {
    for status in [100u16, 301, 400, 403, 429, 500, 503] {
        for kind in [TargetKind::Instance, TargetKind::Account] {
            let outcome = FetchOutcome::judge(kind, Some(sample()), status, "no".to_string(), Some(1u8));
            assert!(matches!(outcome, FetchOutcome::HttpError { status: s, .. } if s == status));
        }
    }
}

#[test]
fn without_a_sample_the_headers_fail_the_target() {
    for status in [200u16, 404, 500] {
        let outcome = FetchOutcome::judge(TargetKind::Account, None, status, String::new(), Some(1u8));
        assert!(matches!(outcome, FetchOutcome::HeaderError));
    }
}

#[test]
fn an_exchange_is_judged_by_headers_then_status_then_body() {
    let ok = FetchOutcome::of_exchange(
        TargetKind::Instance,
        Exchange::Answered(response(200, "2022-11-21T00:05:00.000Z", Some(9))),
    );
    assert!(matches!(ok, FetchOutcome::Success { rate_limit, body: 9 } if rate_limit == sample()));

    let bad_header = FetchOutcome::of_exchange(
        TargetKind::Instance,
        Exchange::Answered(response(200, "not a timestamp", Some(9))),
    );
    assert!(matches!(bad_header, FetchOutcome::HeaderError));

    let bad_header_on_error = FetchOutcome::of_exchange(
        TargetKind::Account,
        Exchange::Answered(response(404, "not a timestamp", None)),
    );
    assert!(matches!(bad_header_on_error, FetchOutcome::HeaderError));

    let missing = FetchOutcome::of_exchange(
        TargetKind::Account,
        Exchange::Answered(response(404, "2022-11-21T00:05:00.000Z", None)),
    );
    assert!(matches!(missing, FetchOutcome::NotFound { rate_limit } if rate_limit == sample()));
}

#[test]
fn no_response_is_a_network_error_and_no_result_a_failed_task() {
    let unreachable = FetchOutcome::<u8>::of_exchange(TargetKind::Instance, Exchange::Unreachable);
    assert!(matches!(unreachable, FetchOutcome::NetworkError));
    let aborted = FetchOutcome::<u8>::of_exchange(TargetKind::Account, Exchange::Aborted);
    assert!(matches!(aborted, FetchOutcome::TaskFailed));
}
