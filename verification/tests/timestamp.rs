use mastodon_exporter::ratelimit::RateLimitSample;
use mastodon_exporter::timestamp::parse_calendar_date;

#[test]
fn a_calendar_date_is_midnight_utc_of_that_day() {
    assert_eq!(parse_calendar_date("2022-11-21"), Some(1668988800));
    assert_eq!(parse_calendar_date("1970-01-01"), Some(0));
    assert_eq!(parse_calendar_date("1970-01-02"), Some(86400));
    assert_eq!(parse_calendar_date("1969-12-31"), Some(-86400));
    assert_eq!(parse_calendar_date("2024-02-29"), Some(1709164800));
}

#[test]
fn what_is_no_calendar_date_is_refused() {
    assert_eq!(parse_calendar_date(""), None);
    assert_eq!(parse_calendar_date("yesterday"), None);
    assert_eq!(parse_calendar_date("2022-02-30"), None);
    assert_eq!(parse_calendar_date("2022-13-01"), None);
    assert_eq!(parse_calendar_date("2022-11-21T10:00:00Z"), None);
    assert_eq!(parse_calendar_date("2022/11/21"), None);
}

#[test]
fn the_headers_give_remaining_and_reset() {
    let sample = RateLimitSample::from_headers(
        &Some("299".to_string()),
        &Some("2022-11-21T00:05:00.000Z".to_string()),
    );
    assert_eq!(sample, Some(RateLimitSample { remaining: 299, reset_at: 1668989100 }));
}

#[test]
fn the_reset_is_taken_in_utc_whatever_its_offset() {
    let sample = RateLimitSample::from_headers(
        &Some("1".to_string()),
        &Some("2022-11-21T01:05:00+01:00".to_string()),
    );
    assert_eq!(sample, Some(RateLimitSample { remaining: 1, reset_at: 1668989100 }));
}

#[test]
fn a_malformed_reset_leaves_no_sample() {
    let remaining = Some("299".to_string());
    assert_eq!(RateLimitSample::from_headers(&remaining, &Some("soon".to_string())), None);
    assert_eq!(RateLimitSample::from_headers(&remaining, &Some("1668989100".to_string())), None);
    assert_eq!(RateLimitSample::from_headers(&remaining, &Some("2022-11-21".to_string())), None);
    assert_eq!(RateLimitSample::from_headers(&remaining, &Some(String::new())), None);
}

#[test]
fn a_malformed_remaining_leaves_no_sample() {
    let reset = Some("2022-11-21T00:05:00.000Z".to_string());
    assert_eq!(RateLimitSample::from_headers(&Some("many".to_string()), &reset), None);
    assert_eq!(RateLimitSample::from_headers(&Some("2.5".to_string()), &reset), None);
    assert_eq!(RateLimitSample::from_headers(&Some(String::new()), &reset), None);
}

#[test]
fn an_absent_header_leaves_no_sample() {
    let remaining = Some("299".to_string());
    let reset = Some("2022-11-21T00:05:00.000Z".to_string());
    assert_eq!(RateLimitSample::from_headers(&None, &reset), None);
    assert_eq!(RateLimitSample::from_headers(&remaining, &None), None);
    assert_eq!(RateLimitSample::from_headers(&None, &None), None);
}

#[test]
fn parts_make_a_sample_only_together() {
    assert_eq!(
        RateLimitSample::from_parts(Some(3), Some(9)),
        Some(RateLimitSample { remaining: 3, reset_at: 9 })
    );
    assert_eq!(RateLimitSample::from_parts(None, Some(9)), None);
    assert_eq!(RateLimitSample::from_parts(Some(3), None), None);
    assert_eq!(RateLimitSample::from_parts(None, None), None);
}
