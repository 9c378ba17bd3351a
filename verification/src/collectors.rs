//! What each fetch writes to the gauges, target by target and cycle by cycle.

use vstd::prelude::*;
use crate::metrics::{view_set, Metrics, MetricsView};
use crate::ratelimit::RateLimitSample;
use crate::registry::texts;
use crate::series::Series;

pub mod account;
pub mod instance;

verus! {

/// The gauges after the rate-limit sample of an instance was published.
pub open spec fn with_rate_limit(view: MetricsView, instance: Seq<char>, sample: RateLimitSample)
    -> MetricsView {
    view_set(
        view_set(view, Series::RatelimitRemaining, seq![instance], sample.remaining),
        Series::RatelimitReset,
        seq![instance],
        sample.reset_at,
    )
}

/// The gauges after the rate-limit sample of a fetch, if it has one, was
/// published.
pub open spec fn with_sample(view: MetricsView, instance: Seq<char>, sample: Option<
    RateLimitSample,
>) -> MetricsView {
    match sample {
        Some(sample) => with_rate_limit(view, instance, sample),
        None => view,
    }
}

/// Publishes the rate-limit sample of an instance: the requests left and
/// the time of the reset, both under the instance's name.
pub fn record_rate_limit(metrics: &mut Metrics, instance: &str, sample: RateLimitSample)
    ensures
        final(metrics)@ == with_rate_limit(old(metrics)@, instance@, sample),
{
    let mut labels: Vec<&str> = Vec::new();
    labels.push(instance);
    assert(texts(labels@) =~= seq![instance@]);
    metrics.set_gauge(Series::RatelimitRemaining, &labels, sample.remaining);
    metrics.set_gauge(Series::RatelimitReset, &labels, sample.reset_at);
}

} // verus!
