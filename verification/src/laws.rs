//! What holds of the gauges whatever the targets answer.

use vstd::prelude::*;
use crate::collectors::account::{
    account_outcome_of, after_account, after_account_polls, with_account_info, AccountPoll,
};
use crate::collectors::instance::{
    after_instance, after_instance_polls, flag, with_instance_info, InstancePoll,
};
use crate::collectors::with_sample;
use crate::cycle::after_cycle;
use crate::fetch::{outcome_of, Exchange, FetchOutcome, Response, TargetKind};
use crate::mastodon::{AccountInfo, InstanceResponse};
use crate::metrics::{empty_view, scrape_body, view_set, MetricsView};
use crate::ratelimit::{header_sample, text_of, RateLimitSample};
use crate::registry::{label_key, upsert};
use crate::series::Series;
use crate::timestamp::rfc3339_epoch;

verus! {

/// Whether a family holds rate-limit samples.
pub open spec fn is_rate_limit_series(series: Series) -> bool {
    series == Series::RatelimitRemaining || series == Series::RatelimitReset
}

/// Whether two states of the gauges differ in rate-limit samples at most.
pub open spec fn agree_off_rate_limit(left: MetricsView, right: MetricsView) -> bool {
    forall|s: Series| !is_rate_limit_series(s) ==> #[trigger] left[s] == right[s]
}

/// Whether every sample of the two registration families is 0 or 1.
pub open spec fn flags_binary(view: MetricsView) -> bool {
    forall|s: Series, key: u64|
        (s == Series::RegistrationsEnabled || s == Series::RegistrationsApprovalRequired)
            && view[s].contains_key(key) ==> {
            let value = (#[trigger] view[s][key]).value;
            value == 0 || value == 1
        }
}

/// Last write wins: of two writes to one family under the same label values
/// only the second shows. The gauges, and with them the scrape body, are
/// what they would be had the first write never happened, and the family
/// holds one sample for those label values, with the second value.
pub proof fn lemma_last_write_wins(
    view: MetricsView,
    series: Series,
    labels: Seq<Seq<char>>,
    first: i64,
    second: i64,
)
    ensures
        view_set(view_set(view, series, labels, first), series, labels, second) == view_set(
            view,
            series,
            labels,
            second,
        ),
        scrape_body(view_set(view_set(view, series, labels, first), series, labels, second))
            == scrape_body(view_set(view, series, labels, second)),
        view_set(view, series, labels, second)[series][label_key(labels)].value == second,
{
    let once = view_set(view, series, labels, second);
    let twice = view_set(view_set(view, series, labels, first), series, labels, second);
    assert(upsert(upsert(view[series], labels, first), labels, second) =~= upsert(
        view[series],
        labels,
        second,
    ));
    assert(twice =~= once);
}

/// A write touches one sample: every other family, and every sample of the
/// same family filed under another key, stays as it was.
pub proof fn lemma_write_is_local(
    view: MetricsView,
    series: Series,
    labels: Seq<Seq<char>>,
    value: i64,
    other: Series,
    key: u64,
)
    requires
        other != series || key != label_key(labels),
    ensures
        view_set(view, series, labels, value)[other].contains_key(key) == view[other].contains_key(
            key,
        ),
        view_set(view, series, labels, value)[other][key] == view[other][key],
{
}

/// The registration gauges of an instance are exactly 0 or 1: publishing an
/// instance document writes 1 for a flag that is set and 0 for one that is
/// not.
pub proof fn lemma_registration_flags_written(
    view: MetricsView,
    instance: Seq<char>,
    info: InstanceResponse,
)
    ensures
        ({
            let after = with_instance_info(view, instance, info);
            let key = label_key(seq![instance]);
            &&& after[Series::RegistrationsEnabled][key].value == flag(info.registrations.enabled)
            &&& after[Series::RegistrationsApprovalRequired][key].value == flag(
                info.registrations.approval_required,
            )
            &&& flag(info.registrations.enabled) == 0 || flag(info.registrations.enabled) == 1
            &&& flag(info.registrations.approval_required) == 0 || flag(
                info.registrations.approval_required,
            ) == 1
        }),
{
}

/// No sample of a registration family is anything but 0 or 1 after the
/// fetch of an instance, if none was before.
pub proof fn lemma_instance_keeps_flags_binary(
    view: MetricsView,
    instance: Seq<char>,
    outcome: FetchOutcome<InstanceResponse>,
)
    requires
        flags_binary(view),
    ensures
        flags_binary(after_instance(view, instance, outcome)),
{
    let limited = with_sample(view, instance, outcome.sample());
    assert(flags_binary(limited)) by {
        assert forall|s: Series, key: u64|
            (s == Series::RegistrationsEnabled || s == Series::RegistrationsApprovalRequired)
                && limited[s].contains_key(key) implies {
            let value = (#[trigger] limited[s][key]).value;
            value == 0 || value == 1
        } by {
            assert(limited[s] == view[s]);
            assert(view[s].contains_key(key));
            assert(view[s][key].value == 0 || view[s][key].value == 1);
        }
    }
    match outcome {
        FetchOutcome::Success { body, .. } => {
            let after = with_instance_info(limited, instance, body);
            assert forall|s: Series, key: u64|
                (s == Series::RegistrationsEnabled || s == Series::RegistrationsApprovalRequired)
                    && after[s].contains_key(key) implies {
                let value = (#[trigger] after[s][key]).value;
                value == 0 || value == 1
            } by {
                if key != label_key(seq![instance]) {
                    assert(after[s].contains_key(key) == limited[s].contains_key(key));
                    assert(after[s][key] == limited[s][key]);
                    assert(limited[s][key].value == 0 || limited[s][key].value == 1);
                }
            }
        },
        _ => {},
    }
}

/// No sample of a registration family is anything but 0 or 1 after the
/// fetch of an account, if none was before.
pub proof fn lemma_account_keeps_flags_binary(
    view: MetricsView,
    instance: Seq<char>,
    account_id: Seq<char>,
    outcome: FetchOutcome<AccountInfo>,
)
    requires
        flags_binary(view),
    ensures
        flags_binary(after_account(view, instance, account_id, outcome)),
{
    let after = after_account(view, instance, account_id, outcome);
    assert forall|s: Series, key: u64|
        (s == Series::RegistrationsEnabled || s == Series::RegistrationsApprovalRequired)
            && after[s].contains_key(key) implies {
        let value = (#[trigger] after[s][key]).value;
        value == 0 || value == 1
    } by {
        assert(after[s] == view[s]);
        assert(view[s].contains_key(key));
        assert(view[s][key].value == 0 || view[s][key].value == 1);
    }
}

/// The registration gauges are 0 or 1 in every state that cycles of
/// instance and account targets lead to from the empty gauges.
pub proof fn lemma_cycles_keep_flags_binary(
    view: MetricsView,
    instances: Seq<InstancePoll>,
    accounts: Seq<AccountPoll>,
)
    requires
        flags_binary(view),
    ensures
        flags_binary(empty_view()),
        flags_binary(after_instance_polls(view, instances)),
        flags_binary(after_account_polls(view, accounts)),
        flags_binary(after_account_polls(after_instance_polls(view, instances), accounts)),
{
    lemma_instance_polls_keep_flags_binary(view, instances);
    lemma_account_polls_keep_flags_binary(view, accounts);
    lemma_account_polls_keep_flags_binary(after_instance_polls(view, instances), accounts);
}

proof fn lemma_instance_polls_keep_flags_binary(view: MetricsView, polls: Seq<InstancePoll>)
    requires
        flags_binary(view),
    ensures
        flags_binary(after_instance_polls(view, polls)),
    decreases polls.len(),
{
    if polls.len() > 0 {
        lemma_instance_polls_keep_flags_binary(view, polls.drop_last());
        lemma_instance_keeps_flags_binary(
            after_instance_polls(view, polls.drop_last()),
            polls.last().instance@,
            outcome_of(TargetKind::Instance, polls.last().exchange),
        );
    }
}

proof fn lemma_account_polls_keep_flags_binary(view: MetricsView, polls: Seq<AccountPoll>)
    requires
        flags_binary(view),
    ensures
        flags_binary(after_account_polls(view, polls)),
    decreases polls.len(),
{
    if polls.len() > 0 {
        lemma_account_polls_keep_flags_binary(view, polls.drop_last());
        lemma_account_keeps_flags_binary(
            after_account_polls(view, polls.drop_last()),
            polls.last().instance@,
            polls.last().account_id@,
            account_outcome_of(polls.last().exchange),
        );
    }
}

/// An account that never posted leaves the last-status family as it was:
/// nothing is written for it, least of all a zero. This holds of publishing
/// its document and of the whole fetch that brought it.
pub proof fn lemma_never_posted_keeps_last_status(
    view: MetricsView,
    instance: Seq<char>,
    account_id: Seq<char>,
    rate_limit: RateLimitSample,
    info: AccountInfo,
)
    requires
        info.last_status_at is None,
    ensures
        with_account_info(view, instance, account_id, info)[Series::AccountLastStatusAt]
            == view[Series::AccountLastStatusAt],
        after_account(
            view,
            instance,
            account_id,
            FetchOutcome::Success { rate_limit, body: info },
        )[Series::AccountLastStatusAt] == view[Series::AccountLastStatusAt],
{
}

/// A fetch that did not succeed writes rate-limit samples at most.
pub proof fn lemma_failed_fetch_spares_documents(
    view: MetricsView,
    instance: Seq<char>,
    account_id: Seq<char>,
    outcome: FetchOutcome<AccountInfo>,
)
    requires
        !(outcome is Success),
    ensures
        agree_off_rate_limit(after_account(view, instance, account_id, outcome), view),
{
}

/// A fetch without a rate-limit sample (no response, a task that ended
/// early, an absent or malformed rate-limit header) writes nothing at all.
pub proof fn lemma_silent_fetch_writes_nothing(
    view: MetricsView,
    instance: Seq<char>,
    account_id: Seq<char>,
    of_instance: FetchOutcome<InstanceResponse>,
    of_account: FetchOutcome<AccountInfo>,
)
    requires
        of_instance.sample() is None,
        of_account.sample() is None,
    ensures
        after_instance(view, instance, of_instance) == view,
        after_account(view, instance, account_id, of_account) == view,
{
}

/// A response without a rate-limit sample fails on its headers, whatever
/// its status and body.
pub proof fn lemma_header_failure_fails_target<B>(kind: TargetKind, response: Response<B>)
    requires
        header_sample(text_of(response.ratelimit_remaining), text_of(response.ratelimit_reset))
            is None,
    ensures
        outcome_of(kind, Exchange::Answered(response)) == FetchOutcome::<B>::HeaderError,
{
}

/// A response whose reset header is absent or no timestamp fails on its
/// headers, whatever else it holds, and so writes nothing.
pub proof fn lemma_malformed_reset_fails_target<B>(kind: TargetKind, response: Response<B>)
    requires
        match response.ratelimit_reset {
            Some(reset) => rfc3339_epoch(reset@) is None,
            None => true,
        },
    ensures
        outcome_of(kind, Exchange::Answered(response)) == FetchOutcome::<B>::HeaderError,
        outcome_of(kind, Exchange::Answered(response)).sample() is None,
{
}

/// What a fetch writes outside the rate-limit families does not depend on
/// the rate-limit samples it finds.
proof fn lemma_account_fetch_ignores_rate_limits(
    left: MetricsView,
    right: MetricsView,
    instance: Seq<char>,
    account_id: Seq<char>,
    outcome: FetchOutcome<AccountInfo>,
)
    requires
        agree_off_rate_limit(left, right),
    ensures
        agree_off_rate_limit(
            after_account(left, instance, account_id, outcome),
            after_account(right, instance, account_id, outcome),
        ),
{
    let l = after_account(left, instance, account_id, outcome);
    let r = after_account(right, instance, account_id, outcome);
    assert forall|s: Series| !is_rate_limit_series(s) implies #[trigger] l[s] == r[s] by {
        assert(left[s] == right[s]);
    }
}

/// A failed account target does not keep the gauges of the other targets of
/// its cycle from being published: outside the rate-limit families the
/// gauges after the cycle are what they would be without that target. This
/// holds of an account that is not found (a 404), of every other failing
/// status, and of a body that does not decode.
pub proof fn lemma_failed_account_spares_cycle(
    view: MetricsView,
    polls: Seq<AccountPoll>,
    failed: int,
)
    requires
        0 <= failed < polls.len(),
        !(account_outcome_of(polls[failed].exchange) is Success),
    ensures
        agree_off_rate_limit(
            after_account_polls(view, polls),
            after_account_polls(view, polls.remove(failed)),
        ),
    decreases polls.len(),
{
    let last = polls.last();
    let before = after_account_polls(view, polls.drop_last());
    if failed == polls.len() - 1 {
        assert(polls.remove(failed) =~= polls.drop_last());
        lemma_failed_fetch_spares_documents(
            before,
            last.instance@,
            last.account_id@,
            account_outcome_of(last.exchange),
        );
    } else {
        let rest = polls.remove(failed);
        assert(rest.drop_last() =~= polls.drop_last().remove(failed));
        assert(rest.last() == last);
        lemma_failed_account_spares_cycle(view, polls.drop_last(), failed);
        lemma_account_fetch_ignores_rate_limits(
            before,
            after_account_polls(view, rest.drop_last()),
            last.instance@,
            last.account_id@,
            account_outcome_of(last.exchange),
        );
    }
}

/// An account target that fails without a rate-limit sample (no response,
/// an absent or malformed rate-limit header, a task that ended early)
/// leaves no trace in its cycle: the gauges are what they would be without
/// that target.
pub proof fn lemma_silent_account_leaves_cycle(
    view: MetricsView,
    polls: Seq<AccountPoll>,
    silent: int,
)
    requires
        0 <= silent < polls.len(),
        account_outcome_of(polls[silent].exchange).sample() is None,
    ensures
        after_account_polls(view, polls) == after_account_polls(view, polls.remove(silent)),
    decreases polls.len(),
{
    if silent == polls.len() - 1 {
        assert(polls.remove(silent) =~= polls.drop_last());
    } else {
        let rest = polls.remove(silent);
        assert(rest.drop_last() =~= polls.drop_last().remove(silent));
        assert(rest.last() == polls.last());
        lemma_silent_account_leaves_cycle(view, polls.drop_last(), silent);
    }
}

/// An instance target that fails without a rate-limit sample (no response,
/// an absent or malformed rate-limit header, a task that ended early)
/// leaves no trace in its cycle: the gauges are what they would be without
/// that target.
pub proof fn lemma_silent_instance_leaves_cycle(
    view: MetricsView,
    polls: Seq<InstancePoll>,
    silent: int,
)
    requires
        0 <= silent < polls.len(),
        outcome_of(TargetKind::Instance, polls[silent].exchange).sample() is None,
    ensures
        after_instance_polls(view, polls) == after_instance_polls(view, polls.remove(silent)),
    decreases polls.len(),
{
    if silent == polls.len() - 1 {
        assert(polls.remove(silent) =~= polls.drop_last());
    } else {
        let rest = polls.remove(silent);
        assert(rest.drop_last() =~= polls.drop_last().remove(silent));
        assert(rest.last() == polls.last());
        lemma_silent_instance_leaves_cycle(view, polls.drop_last(), silent);
    }
}

/// A scrape shows nothing of an instance target that failed without a
/// rate-limit sample, such as one whose connection timed out: the gauges
/// after the cycle, and the scrape body, are those of the cycle without
/// that target.
pub proof fn lemma_silent_instance_absent_from_scrape(
    view: MetricsView,
    instances: Seq<InstancePoll>,
    accounts: Seq<AccountPoll>,
    silent: int,
)
    requires
        0 <= silent < instances.len(),
        outcome_of(TargetKind::Instance, instances[silent].exchange).sample() is None,
    ensures
        after_cycle(view, instances, accounts) == after_cycle(
            view,
            instances.remove(silent),
            accounts,
        ),
        scrape_body(after_cycle(view, instances, accounts)) == scrape_body(
            after_cycle(view, instances.remove(silent), accounts),
        ),
{
    lemma_silent_instance_leaves_cycle(view, instances, silent);
}

/// A scrape shows nothing of an account target that failed without a
/// rate-limit sample: the gauges after the cycle, and the scrape body, are
/// those of the cycle without that target.
pub proof fn lemma_silent_account_absent_from_scrape(
    view: MetricsView,
    instances: Seq<InstancePoll>,
    accounts: Seq<AccountPoll>,
    silent: int,
)
    requires
        0 <= silent < accounts.len(),
        account_outcome_of(accounts[silent].exchange).sample() is None,
    ensures
        after_cycle(view, instances, accounts) == after_cycle(
            view,
            instances,
            accounts.remove(silent),
        ),
        scrape_body(after_cycle(view, instances, accounts)) == scrape_body(
            after_cycle(view, instances, accounts.remove(silent)),
        ),
{
    lemma_silent_account_leaves_cycle(after_instance_polls(view, instances), accounts, silent);
}

} // verus!
