use mastodon_exporter::collectors::account::AccountPoll;
use mastodon_exporter::collectors::instance::InstancePoll;
use mastodon_exporter::cycle::{run_cycle, scrape};
use mastodon_exporter::fetch::{Exchange, FetchOutcome, Response};
use mastodon_exporter::mastodon::{AccountResponse, InstanceRegistrations, InstanceResponse};
use mastodon_exporter::metrics::Metrics;

const RESET: &str = "2022-11-21T00:05:00.000Z";

fn instance_answer(domain: &str) -> Exchange<InstanceResponse> {
    Exchange::Answered(Response {
        status: 200,
        reason: "200 OK".to_string(),
        ratelimit_remaining: Some("299".to_string()),
        ratelimit_reset: Some(RESET.to_string()),
        body: Some(InstanceResponse {
            domain: domain.to_string(),
            title: "A title".to_string(),
            version: "4.0.2".to_string(),
            registrations: InstanceRegistrations { enabled: true, approval_required: false },
        }),
    })
}

fn account_answer(status: u16, username: &str, followers: i64) -> Exchange<AccountResponse> {
    Exchange::Answered(Response {
        status,
        reason: format!("{}", status),
        ratelimit_remaining: Some("100".to_string()),
        ratelimit_reset: Some(RESET.to_string()),
        body: if status == 200 {
            Some(AccountResponse {
                username: username.to_string(),
                followers_count: followers,
                following_count: 2,
                statuses_count: 3,
                last_status_at: Some("2022-11-21".to_string()),
            })
        } else {
            None
        },
    })
}

fn instance_polls(up: &str, down: &str) -> Vec<InstancePoll> {
    vec![
        InstancePoll { instance: up.to_string(), exchange: instance_answer(up) },
        InstancePoll { instance: down.to_string(), exchange: Exchange::Unreachable },
    ]
}

#[test]
fn a_scrape_succeeds_with_one_instance_up_and_one_timed_out() {
    let mut metrics = Metrics::new().unwrap();
    let (body, report) = scrape(&mut metrics, instance_polls("up.example", "down.example"), Vec::new());
    let body = body.unwrap();
    assert!(matches!(report.instances[0], FetchOutcome::Success { .. }));
    assert!(matches!(report.instances[1], FetchOutcome::NetworkError));
    assert!(report.accounts.is_empty());
    assert!(body.contains(
        "mastodon_info{domain=\"up.example\",instance=\"up.example\",title=\"A title\",version=\"4.0.2\"} 1\n"
    ));
    assert!(body.contains("mastodon_registrations_enabled{instance=\"up.example\"} 1\n"));
    assert!(body.contains("mastodon_registrations_approval_required{instance=\"up.example\"} 0\n"));
    assert!(body.contains("mastodon_ratelimit_remaining{instance=\"up.example\"} 299\n"));
    assert!(body.contains("mastodon_ratelimit_reset{instance=\"up.example\"} 1668989100\n"));
    assert!(!body.contains("down.example"));
}

#[test]
fn a_scrape_with_a_failed_target_equals_the_scrape_without_it() {
    let mut with_failure = Metrics::new().unwrap();
    let (left, _) = scrape(&mut with_failure, instance_polls("up.example", "down.example"), Vec::new());
    let mut without = Metrics::new().unwrap();
    let only_up =
        vec![InstancePoll { instance: "up.example".to_string(), exchange: instance_answer("up.example") }];
    let (right, _) = scrape(&mut without, only_up, Vec::new());
    assert_eq!(left.unwrap(), right.unwrap());
}

#[test]
fn a_scrape_with_every_target_failed_still_answers() {
    let mut metrics = Metrics::new().unwrap();
    let instances = vec![
        InstancePoll { instance: "a.example".to_string(), exchange: Exchange::Unreachable },
        InstancePoll { instance: "b.example".to_string(), exchange: Exchange::Aborted },
    ];
    let accounts = vec![AccountPoll {
        instance: "a.example".to_string(),
        account_id: "1".to_string(),
        exchange: Exchange::Unreachable,
    }];
    let (body, report) = scrape(&mut metrics, instances, accounts);
    assert_eq!(body.unwrap(), "");
    assert!(matches!(report.instances[1], FetchOutcome::TaskFailed));
    assert!(matches!(report.accounts[0], FetchOutcome::NetworkError));
}

#[test]
fn a_cycle_takes_instances_then_accounts_and_reports_each() {
    let mut metrics = Metrics::new().unwrap();
    let accounts = vec![
        AccountPoll {
            instance: "up.example".to_string(),
            account_id: "1".to_string(),
            exchange: account_answer(404, "", 0),
        },
        AccountPoll {
            instance: "up.example".to_string(),
            account_id: "2".to_string(),
            exchange: account_answer(200, "bob", 7),
        },
    ];
    let report = run_cycle(&mut metrics, instance_polls("up.example", "down.example"), accounts);
    assert_eq!(report.instances.len(), 2);
    assert_eq!(report.accounts.len(), 2);
    assert!(matches!(report.accounts[0], FetchOutcome::NotFound { .. }));
    assert!(matches!(report.accounts[1], FetchOutcome::Success { .. }));
    let body = metrics.snapshot().unwrap();
    assert!(body.contains(
        "mastodon_account_followers_count{account_id=\"2\",instance=\"up.example\",username=\"bob\"} 7\n"
    ));
    assert!(body.contains(
        "mastodon_account_last_status_at{account_id=\"2\",instance=\"up.example\",username=\"bob\"} 1668988800\n"
    ));
    assert!(!body.contains("account_id=\"1\""));
    assert!(body.contains("mastodon_ratelimit_remaining{instance=\"up.example\"} 100\n"));
}

#[test]
fn the_second_of_two_cycles_overwrites_the_first() {
    let mut metrics = Metrics::new().unwrap();
    let first = vec![AccountPoll {
        instance: "up.example".to_string(),
        account_id: "2".to_string(),
        exchange: account_answer(200, "bob", 100),
    }];
    let second = vec![AccountPoll {
        instance: "up.example".to_string(),
        account_id: "2".to_string(),
        exchange: account_answer(200, "bob", 101),
    }];
    run_cycle(&mut metrics, Vec::new(), first);
    let (body, _) = scrape(&mut metrics, Vec::new(), second);
    let body = body.unwrap();
    let lines: Vec<&str> =
        body.lines().filter(|l| l.starts_with("mastodon_account_followers_count{")).collect();
    assert_eq!(
        lines,
        vec!["mastodon_account_followers_count{account_id=\"2\",instance=\"up.example\",username=\"bob\"} 101"]
    );
}
