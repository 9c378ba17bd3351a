//! Account targets: what the document of an account writes to the gauges.

use vstd::prelude::*;
use crate::collectors::{record_rate_limit, with_sample};
use crate::fetch::{outcome_of, Exchange, FetchOutcome, TargetKind};
use crate::mastodon::{account_info_of, AccountInfo, AccountResponse};
use crate::metrics::{view_set, Metrics, MetricsView};
use crate::registry::texts;
use crate::series::Series;

verus! {

/// One account target with the way its request ended.
#[derive(Debug)]
pub struct AccountPoll {
    /// The domain name of the instance the account lives on.
    pub instance: String,
    /// The account's id on that instance.
    pub account_id: String,
    /// How the request for its document ended.
    pub exchange: Exchange<AccountResponse>,
}

/// The label values under which an account's gauges are written.
pub open spec fn account_labels(instance: Seq<char>, account_id: Seq<char>, info: AccountInfo)
    -> Seq<Seq<char>> {
    seq![instance, account_id, info.username@]
}

/// The gauges after the three counts of an account were published.
pub open spec fn with_account_counts(view: MetricsView, labels: Seq<Seq<char>>, info: AccountInfo)
    -> MetricsView {
    let followers = view_set(view, Series::AccountFollowersCount, labels, info.followers_count);
    let following = view_set(
        followers,
        Series::AccountFollowingCount,
        labels,
        info.following_count,
    );
    view_set(following, Series::AccountStatusesCount, labels, info.statuses_count)
}

/// The gauges after the document of an account was published: its three
/// counts, and the day of its last status if it ever posted.
pub open spec fn with_account_info(
    view: MetricsView,
    instance: Seq<char>,
    account_id: Seq<char>,
    info: AccountInfo,
) -> MetricsView {
    let labels = account_labels(instance, account_id, info);
    let counted = with_account_counts(view, labels, info);
    match info.last_status_at {
        Some(epoch) => view_set(counted, Series::AccountLastStatusAt, labels, epoch),
        None => counted,
    }
}

/// What the fetch of an account amounts to once its document is normalised:
/// a document whose last-status day is no calendar date does not decode.
pub open spec fn normalised_outcome(outcome: FetchOutcome<AccountResponse>) -> FetchOutcome<
    AccountInfo,
> {
    match outcome {
        FetchOutcome::Success { rate_limit, body } => match account_info_of(body) {
            Some(info) => FetchOutcome::Success { rate_limit, body: info },
            None => FetchOutcome::DecodeError { rate_limit },
        },
        FetchOutcome::NotFound { rate_limit } => FetchOutcome::NotFound { rate_limit },
        FetchOutcome::HttpError { rate_limit, status, message } => FetchOutcome::HttpError {
            rate_limit,
            status,
            message,
        },
        FetchOutcome::NetworkError => FetchOutcome::NetworkError,
        FetchOutcome::HeaderError => FetchOutcome::HeaderError,
        FetchOutcome::DecodeError { rate_limit } => FetchOutcome::DecodeError { rate_limit },
        FetchOutcome::TaskFailed => FetchOutcome::TaskFailed,
    }
}

/// What the request for an account amounts to.
pub open spec fn account_outcome_of(exchange: Exchange<AccountResponse>) -> FetchOutcome<
    AccountInfo,
> {
    normalised_outcome(outcome_of(TargetKind::Account, exchange))
}

/// The gauges after the fetch of an account: the rate-limit sample is
/// published whenever the headers gave one, the document only on success.
pub open spec fn after_account(
    view: MetricsView,
    instance: Seq<char>,
    account_id: Seq<char>,
    outcome: FetchOutcome<AccountInfo>,
) -> MetricsView {
    let limited = with_sample(view, instance, outcome.sample());
    match outcome {
        FetchOutcome::Success { body, .. } => with_account_info(
            limited,
            instance,
            account_id,
            body,
        ),
        _ => limited,
    }
}

/// The gauges after the account targets of a cycle, taken in order.
pub open spec fn after_account_polls(view: MetricsView, polls: Seq<AccountPoll>) -> MetricsView
    decreases polls.len(),
{
    if polls.len() == 0 {
        view
    } else {
        let last = polls.last();
        after_account(
            after_account_polls(view, polls.drop_last()),
            last.instance@,
            last.account_id@,
            account_outcome_of(last.exchange),
        )
    }
}

/// Publishes the document of an account. An account that never posted
/// leaves the last-status gauge as it was.
pub fn record_account_info(
    metrics: &mut Metrics,
    instance: &str,
    account_id: &str,
    info: &AccountInfo,
)
    ensures
        final(metrics)@ == with_account_info(old(metrics)@, instance@, account_id@, *info),
{
    let mut labels: Vec<&str> = Vec::new();
    labels.push(instance);
    labels.push(account_id);
    labels.push(info.username.as_str());
    assert(texts(labels@) =~= account_labels(instance@, account_id@, *info));
    metrics.set_gauge(Series::AccountFollowersCount, &labels, info.followers_count);
    metrics.set_gauge(Series::AccountFollowingCount, &labels, info.following_count);
    metrics.set_gauge(Series::AccountStatusesCount, &labels, info.statuses_count);
    match info.last_status_at {
        Some(epoch) => {
            metrics.set_gauge(Series::AccountLastStatusAt, &labels, epoch);
        },
        None => {},
    }
}

/// Writes what the fetch of an account amounts to: its rate-limit sample
/// where the headers gave one, and its document on success. A failed fetch
/// writes nothing else, so what an earlier cycle published stays.
pub fn record_account(
    metrics: &mut Metrics,
    instance: &str,
    account_id: &str,
    outcome: &FetchOutcome<AccountInfo>,
)
    ensures
        final(metrics)@ == after_account(old(metrics)@, instance@, account_id@, *outcome),
{
    match outcome {
        FetchOutcome::Success { rate_limit, body } => {
            record_rate_limit(metrics, instance, *rate_limit);
            record_account_info(metrics, instance, account_id, body);
        },
        FetchOutcome::NotFound { rate_limit } => {
            record_rate_limit(metrics, instance, *rate_limit);
        },
        FetchOutcome::HttpError { rate_limit, .. } => {
            record_rate_limit(metrics, instance, *rate_limit);
        },
        FetchOutcome::DecodeError { rate_limit } => {
            record_rate_limit(metrics, instance, *rate_limit);
        },
        FetchOutcome::NetworkError => {},
        FetchOutcome::HeaderError => {},
        FetchOutcome::TaskFailed => {},
    }
}

/// Normalises the document of a fetched account.
pub fn normalise_outcome(outcome: FetchOutcome<AccountResponse>) -> (normal: FetchOutcome<
    AccountInfo,
>)
    ensures
        normal == normalised_outcome(outcome),
{
    match outcome {
        FetchOutcome::Success { rate_limit, body } => match AccountInfo::from_response(body) {
            Some(info) => FetchOutcome::Success { rate_limit, body: info },
            None => FetchOutcome::DecodeError { rate_limit },
        },
        FetchOutcome::NotFound { rate_limit } => FetchOutcome::NotFound { rate_limit },
        FetchOutcome::HttpError { rate_limit, status, message } => FetchOutcome::HttpError {
            rate_limit,
            status,
            message,
        },
        FetchOutcome::NetworkError => FetchOutcome::NetworkError,
        FetchOutcome::HeaderError => FetchOutcome::HeaderError,
        FetchOutcome::DecodeError { rate_limit } => FetchOutcome::DecodeError { rate_limit },
        FetchOutcome::TaskFailed => FetchOutcome::TaskFailed,
    }
}

/// Judges how the request for an account ended and writes the gauges that
/// follow from it. Returns the outcome, for the caller to report.
pub fn collect_account(
    metrics: &mut Metrics,
    instance: &str,
    account_id: &str,
    exchange: Exchange<AccountResponse>,
) -> (outcome: FetchOutcome<AccountInfo>)
    ensures
        outcome == account_outcome_of(exchange),
        final(metrics)@ == after_account(old(metrics)@, instance@, account_id@, outcome),
{
    let outcome = normalise_outcome(FetchOutcome::of_exchange(TargetKind::Account, exchange));
    record_account(metrics, instance, account_id, &outcome);
    outcome
}

/// Writes the gauges for every account target of a cycle, in order. No
/// target's failure keeps another one's gauges from being written. Returns
/// the outcome of each target, in the same order.
pub fn collect_accounts(metrics: &mut Metrics, polls: Vec<AccountPoll>) -> (outcomes: Vec<
    FetchOutcome<AccountInfo>,
>)
    ensures
        final(metrics)@ == after_account_polls(old(metrics)@, polls@),
        outcomes@.len() == polls@.len(),
        forall|i: int|
            0 <= i < polls@.len() ==> #[trigger] outcomes@[i] == account_outcome_of(
                polls@[i].exchange,
            ),
{
    let mut outcomes: Vec<FetchOutcome<AccountInfo>> = Vec::new();
    let ghost start = metrics@;
    for poll in it: polls
        invariant
            it.seq() == polls@,
            metrics@ == after_account_polls(start, polls@.subrange(0, it.index() as int)),
            outcomes@.len() == it.index(),
            forall|i: int|
                0 <= i < it.index() ==> #[trigger] outcomes@[i] == account_outcome_of(
                    polls@[i].exchange,
                ),
    {
        proof {
            let seen = polls@.subrange(0, it.index() as int + 1);
            assert(seen.drop_last() =~= polls@.subrange(0, it.index() as int));
            assert(seen.last() == poll);
        }
        let outcome = collect_account(
            metrics,
            poll.instance.as_str(),
            poll.account_id.as_str(),
            poll.exchange,
        );
        outcomes.push(outcome);
    }
    proof {
        assert(polls@.subrange(0, polls@.len() as int) =~= polls@);
    }
    outcomes
}

} // verus!
