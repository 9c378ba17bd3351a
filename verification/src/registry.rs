//! The metric registry: nine labelled gauge families kept by the
//! `prometheus` crate, written by label tuple and rendered as a scrape body.
//!
//! The gauge families themselves are `prometheus::IntGaugeVec` values. What
//! is stated about them below is taken on trust from that crate's source;
//! everything built on top of it is proved.

use vstd::prelude::*;

verus! {

/// One sample of a gauge family: the label values it was created with and
/// the value last written to it.
pub struct Sample {
    pub labels: Seq<Seq<char>>,
    pub value: i64,
}

/// The fixed part of a gauge family: its name, help text and label names.
pub struct Schema {
    pub name: Seq<char>,
    pub help: Seq<char>,
    pub label_names: Seq<Seq<char>>,
}

/// A gauge family as the encoder sees it.
pub struct Family {
    pub schema: Schema,
    pub samples: Map<u64, Sample>,
}

/// The character sequences of a list of string slices.
pub open spec fn texts(parts: Seq<&str>) -> Seq<Seq<char>> {
    parts.map_values(|p: &str| p@)
}

/// A gauge family of the `prometheus` crate, a `prometheus::IntGaugeVec`.
///
/// That type is an alias of a generic type whose parameter `prometheus`
/// does not export, so it cannot be declared to the verifier by name; the
/// family is held opaquely, and what it holds is named by `series_schema`
/// and `series_samples`. A family is never cloned or shared here: all
/// writes go through `&mut`, which is what lets its samples be spoken of as
/// a value.
#[verifier::external_body]
pub struct GaugeSeries {
    inner: prometheus::IntGaugeVec,
}

#[verifier::external_type_specification]
#[verifier::external_body]
pub struct ExRegistry(prometheus::Registry);

#[verifier::external_type_specification]
#[verifier::external_body]
pub struct ExPrometheusError(prometheus::Error);

/// Name, help text and label names a gauge family was made with.
pub uninterp spec fn series_schema(series: GaugeSeries) -> Schema;

/// The samples of a gauge family, by the key `prometheus` files them under.
pub uninterp spec fn series_samples(series: GaugeSeries) -> Map<u64, Sample>;

/// The key under which `prometheus` files a tuple of label values: its
/// 64-bit hash of the values' bytes. Two tuples with one key share a sample.
pub uninterp spec fn label_key(labels: Seq<Seq<char>>) -> u64;

/// Whether `prometheus` accepts a name, help text and label names for a new
/// gauge family.
pub uninterp spec fn schema_accepted(
    name: Seq<char>,
    help: Seq<char>,
    label_names: Seq<Seq<char>>,
) -> bool;

/// The families registered with a registry, in the order of registration.
pub uninterp spec fn registered_families(registry: prometheus::Registry) -> Seq<Family>;

/// Whether a registry that holds `registered` accepts `candidate` as well.
pub uninterp spec fn registration_accepted(registered: Seq<Family>, candidate: Family) -> bool;

/// The text exposition of a list of registered families, or `None` where
/// the encoder reports an error.
pub uninterp spec fn exposition_text(families: Seq<Family>) -> Option<Seq<char>>;

/// The family a gauge series stands for.
pub open spec fn family_of(series: GaugeSeries) -> Family {
    Family { schema: series_schema(series), samples: series_samples(series) }
}

/// Writing `value` into the sample filed under `key`: a sample already
/// there keeps its label values and takes the new value; otherwise a new
/// sample with `labels` is filed.
pub open spec fn upsert_at(
    samples: Map<u64, Sample>,
    key: u64,
    labels: Seq<Seq<char>>,
    value: i64,
) -> Map<u64, Sample> {
    if samples.contains_key(key) {
        samples.insert(key, Sample { labels: samples[key].labels, value })
    } else {
        samples.insert(key, Sample { labels, value })
    }
}

/// Writing `value` under a tuple of label values.
pub open spec fn upsert(samples: Map<u64, Sample>, labels: Seq<Seq<char>>, value: i64) -> Map<
    u64,
    Sample,
> {
    upsert_at(samples, label_key(labels), labels, value)
}

/// Calls `prometheus::IntGaugeVec::new` with `prometheus::Opts::new(name, help)`.
///
/// Trusted: the call succeeds exactly when the crate accepts the name, help
/// text and label names; the new family then carries them and has no sample.
#[verifier::external_body]
pub(crate) fn new_series(name: &str, help: &str, label_names: &Vec<&str>) -> (made: Result<
    GaugeSeries,
    prometheus::Error,
>)
    ensures
        made.is_ok() == schema_accepted(name@, help@, texts(label_names@)),
        made matches Ok(series) ==> {
            &&& series_schema(series) == (Schema {
                name: name@,
                help: help@,
                label_names: texts(label_names@),
            })
            &&& series_samples(series) == Map::<u64, Sample>::empty()
        },
{
    match prometheus::IntGaugeVec::new(prometheus::Opts::new(name, help), label_names) {
        Ok(inner) => Ok(GaugeSeries { inner }),
        Err(e) => Err(e),
    }
}

/// Calls `with_label_values(labels).set(value)` on the gauge family.
///
/// Trusted: `with_label_values` panics unless there are as many label values
/// as label names, hence the `requires`. It looks the sample up by the hash
/// of the label values and creates it with these values if there is none;
/// `set` then stores the value in that sample. The schema does not change.
/// With the arity met neither call panics.
#[verifier::external_body]
pub(crate) fn series_set(series: &mut GaugeSeries, labels: &Vec<&str>, value: i64)
    requires
        labels@.len() == series_schema(*old(series)).label_names.len(),
    ensures
        series_schema(*final(series)) == series_schema(*old(series)),
        series_samples(*final(series)) == upsert_at(
            series_samples(*old(series)),
            label_key(texts(labels@)),
            texts(labels@),
            value,
        ),
    no_unwind
{
    series.inner.with_label_values(labels).set(value);
}

/// Calls `prometheus::Registry::new`.
///
/// Trusted: a new registry holds no family.
#[verifier::external_body]
pub(crate) fn new_registry() -> (registry: prometheus::Registry)
    ensures
        registered_families(registry) == Seq::<Family>::empty(),
{
    prometheus::Registry::new()
}

/// Calls `prometheus::Registry::register` with a handle to the gauge family.
///
/// Trusted: whether the registry accepts the family depends only on the
/// families it holds and on the new one; an accepted family is added behind
/// the others, a refused one leaves the registry as it was.
///
/// The registry shares the family's samples rather than copying them. What
/// is said of it holds while the family is not written, so a registry must
/// not outlive the shared borrow of the families it was filled from.
#[verifier::external_body]
pub(crate) fn register_series(registry: &mut prometheus::Registry, series: &GaugeSeries) -> (done:
    Result<(), prometheus::Error>)
    ensures
        done.is_ok() == registration_accepted(
            registered_families(*old(registry)),
            family_of(*series),
        ),
        registered_families(*final(registry)) == if done.is_ok() {
            registered_families(*old(registry)).push(family_of(*series))
        } else {
            registered_families(*old(registry))
        },
{
    registry.register(Box::new(series.inner.clone()))
}

/// Calls `prometheus::Registry::gather` and hands the families to
/// `prometheus::TextEncoder::encode_to_string`.
///
/// Trusted: the text depends only on the registered families, their schemas
/// and samples (`gather` orders families by name and samples by label
/// values before they are written).
#[verifier::external_body]
pub(crate) fn encode_registry(registry: &prometheus::Registry) -> (text: Result<
    String,
    prometheus::Error,
>)
    ensures
        match text {
            Ok(body) => exposition_text(registered_families(*registry)) == Some(body@),
            Err(_) => exposition_text(registered_families(*registry)) is None,
        },
{
    prometheus::TextEncoder::new().encode_to_string(&registry.gather())
}

} // verus!
