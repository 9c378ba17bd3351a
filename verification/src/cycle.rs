//! One scrape: a full collection cycle over every target, then the gauges
//! rendered as they stand.

use vstd::prelude::*;
use crate::collectors::account::{
    account_outcome_of, after_account_polls, collect_accounts, AccountPoll,
};
use crate::collectors::instance::{after_instance_polls, collect_instances, InstancePoll};
use crate::fetch::{outcome_of, FetchOutcome, TargetKind};
use crate::mastodon::{AccountInfo, InstanceResponse};
use crate::metrics::{scrape_body, Metrics, MetricsError, MetricsView};

verus! {

/// What became of each target of a cycle, in the order of the targets.
#[derive(Debug)]
pub struct CycleReport {
    /// The outcome of each instance target.
    pub instances: Vec<FetchOutcome<InstanceResponse>>,
    /// The outcome of each account target.
    pub accounts: Vec<FetchOutcome<AccountInfo>>,
}

/// The gauges after a cycle: the instance targets in order, then the
/// account targets in order.
pub open spec fn after_cycle(
    view: MetricsView,
    instances: Seq<InstancePoll>,
    accounts: Seq<AccountPoll>,
) -> MetricsView {
    after_account_polls(after_instance_polls(view, instances), accounts)
}

/// Whether a report holds the outcome of every target of a cycle.
pub open spec fn reports(
    report: CycleReport,
    instances: Seq<InstancePoll>,
    accounts: Seq<AccountPoll>,
) -> bool {
    &&& report.instances@.len() == instances.len()
    &&& report.accounts@.len() == accounts.len()
    &&& forall|i: int|
        0 <= i < instances.len() ==> #[trigger] report.instances@[i] == outcome_of(
            TargetKind::Instance,
            instances[i].exchange,
        )
    &&& forall|i: int|
        0 <= i < accounts.len() ==> #[trigger] report.accounts@[i] == account_outcome_of(
            accounts[i].exchange,
        )
}

/// Runs one collection cycle over targets whose requests have all ended:
/// writes the gauges of every target that answered and skips the others.
/// The cycle itself never fails.
pub fn run_cycle(metrics: &mut Metrics, instances: Vec<InstancePoll>, accounts: Vec<AccountPoll>)
    -> (report: CycleReport)
    ensures
        final(metrics)@ == after_cycle(old(metrics)@, instances@, accounts@),
        reports(report, instances@, accounts@),
{
    let of_instances = collect_instances(metrics, instances);
    let of_accounts = collect_accounts(metrics, accounts);
    CycleReport { instances: of_instances, accounts: of_accounts }
}

/// Answers one scrape: runs a full cycle, then renders the gauges. However
/// many targets failed, the body is that of the gauges after the cycle; it
/// is missing only where rendering itself fails.
pub fn scrape(metrics: &mut Metrics, instances: Vec<InstancePoll>, accounts: Vec<AccountPoll>)
    -> (answer: (Result<String, MetricsError>, CycleReport))
    ensures
        final(metrics)@ == after_cycle(old(metrics)@, instances@, accounts@),
        reports(answer.1, instances@, accounts@),
        match answer.0 {
            Ok(body) => scrape_body(final(metrics)@) == Some(body@),
            Err(_) => scrape_body(final(metrics)@) is None,
        },
{
    let report = run_cycle(metrics, instances, accounts);
    let body = metrics.snapshot();
    (body, report)
}

} // verus!
