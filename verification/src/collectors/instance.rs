//! Instance targets: what the document of an instance writes to the gauges.

use vstd::prelude::*;
use crate::collectors::{record_rate_limit, with_sample};
use crate::fetch::{outcome_of, Exchange, FetchOutcome, TargetKind};
use crate::mastodon::InstanceResponse;
use crate::metrics::{view_set, Metrics, MetricsView};
use crate::registry::texts;
use crate::series::Series;

verus! {

/// One instance target with the way its request ended.
#[derive(Debug)]
pub struct InstancePoll {
    /// The domain name of the instance.
    pub instance: String,
    /// How the request for its document ended.
    pub exchange: Exchange<InstanceResponse>,
}

/// The gauge value of a flag: 1 if it is set, 0 if not.
pub open spec fn flag(set: bool) -> i64 {
    if set {
        1
    } else {
        0
    }
}

/// The label values of the presence marker of an instance.
pub open spec fn info_labels(instance: Seq<char>, info: InstanceResponse) -> Seq<Seq<char>> {
    seq![instance, info.domain@, info.title@, info.version@]
}

/// The gauges after the document of an instance was published: the
/// presence marker at 1, and the two registration flags.
pub open spec fn with_instance_info(view: MetricsView, instance: Seq<char>, info: InstanceResponse)
    -> MetricsView {
    let marked = view_set(view, Series::Info, info_labels(instance, info), 1);
    let enabled = view_set(
        marked,
        Series::RegistrationsEnabled,
        seq![instance],
        flag(info.registrations.enabled),
    );
    view_set(
        enabled,
        Series::RegistrationsApprovalRequired,
        seq![instance],
        flag(info.registrations.approval_required),
    )
}

/// The gauges after the fetch of an instance: the rate-limit sample is
/// published whenever the headers gave one, the document only on success.
pub open spec fn after_instance(
    view: MetricsView,
    instance: Seq<char>,
    outcome: FetchOutcome<InstanceResponse>,
) -> MetricsView {
    let limited = with_sample(view, instance, outcome.sample());
    match outcome {
        FetchOutcome::Success { body, .. } => with_instance_info(limited, instance, body),
        _ => limited,
    }
}

/// The gauges after the instance targets of a cycle, taken in order.
pub open spec fn after_instance_polls(view: MetricsView, polls: Seq<InstancePoll>) -> MetricsView
    decreases polls.len(),
{
    if polls.len() == 0 {
        view
    } else {
        let last = polls.last();
        after_instance(
            after_instance_polls(view, polls.drop_last()),
            last.instance@,
            outcome_of(TargetKind::Instance, last.exchange),
        )
    }
}

/// The gauge value of a flag: 1 if it is set, 0 if not.
pub fn flag_value(set: bool) -> (value: i64)
    ensures
        value == flag(set),
        value == 0 || value == 1,
{
    if set {
        1
    } else {
        0
    }
}

/// Publishes the document of an instance.
pub fn record_instance_info(metrics: &mut Metrics, instance: &str, info: &InstanceResponse)
    ensures
        final(metrics)@ == with_instance_info(old(metrics)@, instance@, *info),
{
    let mut labels: Vec<&str> = Vec::new();
    labels.push(instance);
    labels.push(info.domain.as_str());
    labels.push(info.title.as_str());
    labels.push(info.version.as_str());
    assert(texts(labels@) =~= info_labels(instance@, *info));
    metrics.set_gauge(Series::Info, &labels, 1);
    let mut own: Vec<&str> = Vec::new();
    own.push(instance);
    assert(texts(own@) =~= seq![instance@]);
    metrics.set_gauge(Series::RegistrationsEnabled, &own, flag_value(info.registrations.enabled));
    metrics.set_gauge(
        Series::RegistrationsApprovalRequired,
        &own,
        flag_value(info.registrations.approval_required),
    );
}

/// Writes what the fetch of an instance amounts to: its rate-limit sample
/// where the headers gave one, and its document on success. A failed fetch
/// writes nothing else, so what an earlier cycle published stays.
pub fn record_instance(
    metrics: &mut Metrics,
    instance: &str,
    outcome: &FetchOutcome<InstanceResponse>,
)
    ensures
        final(metrics)@ == after_instance(old(metrics)@, instance@, *outcome),
{
    match outcome {
        FetchOutcome::Success { rate_limit, body } => {
            record_rate_limit(metrics, instance, *rate_limit);
            record_instance_info(metrics, instance, body);
        },
        FetchOutcome::NotFound { rate_limit } => {
            record_rate_limit(metrics, instance, *rate_limit);
        },
        FetchOutcome::HttpError { rate_limit, .. } => {
            record_rate_limit(metrics, instance, *rate_limit);
        },
        FetchOutcome::DecodeError { rate_limit } => {
            record_rate_limit(metrics, instance, *rate_limit);
        },
        FetchOutcome::NetworkError => {},
        FetchOutcome::HeaderError => {},
        FetchOutcome::TaskFailed => {},
    }
}

/// Judges how the request for an instance ended and writes the gauges that
/// follow from it. Returns the outcome, for the caller to report.
pub fn collect_instance(
    metrics: &mut Metrics,
    instance: &str,
    exchange: Exchange<InstanceResponse>,
) -> (outcome: FetchOutcome<InstanceResponse>)
    ensures
        outcome == outcome_of(TargetKind::Instance, exchange),
        final(metrics)@ == after_instance(old(metrics)@, instance@, outcome),
{
    let outcome = FetchOutcome::of_exchange(TargetKind::Instance, exchange);
    record_instance(metrics, instance, &outcome);
    outcome
}

/// Writes the gauges for every instance target of a cycle, in order. No
/// target's failure keeps another one's gauges from being written. Returns
/// the outcome of each target, in the same order.
pub fn collect_instances(metrics: &mut Metrics, polls: Vec<InstancePoll>) -> (outcomes: Vec<
    FetchOutcome<InstanceResponse>,
>)
    ensures
        final(metrics)@ == after_instance_polls(old(metrics)@, polls@),
        outcomes@.len() == polls@.len(),
        forall|i: int|
            0 <= i < polls@.len() ==> #[trigger] outcomes@[i] == outcome_of(
                TargetKind::Instance,
                polls@[i].exchange,
            ),
{
    let mut outcomes: Vec<FetchOutcome<InstanceResponse>> = Vec::new();
    let ghost start = metrics@;
    for poll in it: polls
        invariant
            it.seq() == polls@,
            metrics@ == after_instance_polls(start, polls@.subrange(0, it.index() as int)),
            outcomes@.len() == it.index(),
            forall|i: int|
                0 <= i < it.index() ==> #[trigger] outcomes@[i] == outcome_of(
                    TargetKind::Instance,
                    polls@[i].exchange,
                ),
    {
        proof {
            let seen = polls@.subrange(0, it.index() as int + 1);
            assert(seen.drop_last() =~= polls@.subrange(0, it.index() as int));
            assert(seen.last() == poll);
        }
        let outcome = collect_instance(metrics, poll.instance.as_str(), poll.exchange);
        outcomes.push(outcome);
    }
    proof {
        assert(polls@.subrange(0, polls@.len() as int) =~= polls@);
    }
    outcomes
}

} // verus!
