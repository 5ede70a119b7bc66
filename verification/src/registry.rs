//! The registry of metric handles, shared by the recorder that writes to
//! it and the exporter that drains it

use crate::data::{Label, MetricKey};
use metrics::Key;
use metrics_util::registry::{AtomicStorage, Registry};
use std::sync::atomic::Ordering;
use std::sync::Arc;
use vstd::prelude::*;

verus! {

/// The counter handle of `metrics`; handed out, never inspected.
#[verifier::external_type_specification]
#[verifier::external_body]
pub struct ExCounter(metrics::Counter);

/// The gauge handle of `metrics`; handed out, never inspected.
#[verifier::external_type_specification]
#[verifier::external_body]
pub struct ExGauge(metrics::Gauge);

/// The histogram handle of `metrics`; handed out, never inspected.
#[verifier::external_type_specification]
#[verifier::external_body]
pub struct ExHistogram(metrics::Histogram);

/// Whether no two entries have the same key
pub open spec fn distinct_keys<V>(entries: Seq<(MetricKey, V)>) -> bool {
    forall|i: int, j: int|
        0 <= i < j < entries.len() ==> (#[trigger] entries[i]).0@ != (#[trigger] entries[j]).0@
}

/// A handle to the shared registry: a `metrics_util::registry::Registry`
/// keyed by `metrics::Key`, with atomic storage, behind an `Arc`.
///
/// Other threads write to the registry at any time, so nothing is stated
/// of what it holds: every read says only what holds of each outcome.
#[verifier::external_body]
pub struct MetricRegistry {
    inner: Arc<Registry<Key, AtomicStorage>>,
}

impl MetricRegistry {
    /// A new, empty registry. Calls `Registry::new` with `AtomicStorage`.
    #[verifier::external_body]
    pub(crate) fn new() -> MetricRegistry {
        MetricRegistry { inner: Arc::new(Registry::new(AtomicStorage)) }
    }

    /// Another handle to the same registry. Calls `Arc::clone`.
    #[verifier::external_body]
    pub(crate) fn share(&self) -> MetricRegistry {
        MetricRegistry { inner: self.inner.clone() }
    }

    /// The counter of `key`, created at zero where the registry has none.
    /// Calls `Registry::get_or_create_counter`.
    #[verifier::external_body]
    pub(crate) fn counter(&self, key: &MetricKey) -> metrics::Counter {
        let labels: Vec<metrics::Label> = key.labels.iter().map(
            |l| metrics::Label::new(l.key.clone(), l.value.clone()),
        ).collect();
        let key = Key::from_parts(key.name.clone(), labels);
        self.inner.get_or_create_counter(&key, |c| c.clone().into())
    }

    /// The gauge of `key`, created at zero where the registry has none.
    /// Calls `Registry::get_or_create_gauge`.
    #[verifier::external_body]
    pub(crate) fn gauge(&self, key: &MetricKey) -> metrics::Gauge {
        let labels: Vec<metrics::Label> = key.labels.iter().map(
            |l| metrics::Label::new(l.key.clone(), l.value.clone()),
        ).collect();
        let key = Key::from_parts(key.name.clone(), labels);
        self.inner.get_or_create_gauge(&key, |c| c.clone().into())
    }

    /// The histogram of `key`, created empty where the registry has none.
    /// Calls `Registry::get_or_create_histogram`.
    #[verifier::external_body]
    pub(crate) fn histogram(&self, key: &MetricKey) -> metrics::Histogram {
        let labels: Vec<metrics::Label> = key.labels.iter().map(
            |l| metrics::Label::new(l.key.clone(), l.value.clone()),
        ).collect();
        let key = Key::from_parts(key.name.clone(), labels);
        self.inner.get_or_create_histogram(&key, |c| c.clone().into())
    }

    /// Every counter with the total read from it. Calls
    /// `Registry::get_counter_handles`, which returns a map, so no key
    /// comes twice; the order is the map's and is not stated.
    #[verifier::external_body]
    pub(crate) fn counters(&self) -> (r: Vec<(MetricKey, u64)>)
        ensures
            distinct_keys(r@),
    {
        self.inner.get_counter_handles().into_iter().map(
            |(k, v)|
                (
                    MetricKey::new(
                        k.name().to_string(),
                        k.labels().map(
                            |l| Label::new(l.key().to_string(), l.value().to_string()),
                        ).collect(),
                    ),
                    v.load(Ordering::Acquire),
                ),
        ).collect()
    }

    /// Every gauge with the bit pattern of the value last written to it.
    /// Calls `Registry::get_gauge_handles`, which returns a map, so no key
    /// comes twice; the order is the map's and is not stated.
    #[verifier::external_body]
    pub(crate) fn gauges(&self) -> (r: Vec<(MetricKey, u64)>)
        ensures
            distinct_keys(r@),
    {
        self.inner.get_gauge_handles().into_iter().map(
            |(k, v)|
                (
                    MetricKey::new(
                        k.name().to_string(),
                        k.labels().map(
                            |l| Label::new(l.key().to_string(), l.value().to_string()),
                        ).collect(),
                    ),
                    v.load(Ordering::Acquire),
                ),
        ).collect()
    }

    /// Every histogram with the bit patterns of the samples in its
    /// buffer, as `AtomicBucket::data` hands them out. Calls
    /// `Registry::get_histogram_handles`, which returns a map, so no key
    /// comes twice; the order is the map's and is not stated.
    #[verifier::external_body]
    pub(crate) fn histograms(&self) -> (r: Vec<(MetricKey, Vec<u64>)>)
        ensures
            distinct_keys(r@),
    {
        self.inner.get_histogram_handles().into_iter().map(
            |(k, v)|
                (
                    MetricKey::new(
                        k.name().to_string(),
                        k.labels().map(
                            |l| Label::new(l.key().to_string(), l.value().to_string()),
                        ).collect(),
                    ),
                    v.data().into_iter().map(|sample| sample.to_bits()).collect(),
                ),
        ).collect()
    }

    /// Removes every handle from the registry. Calls `Registry::clear`.
    #[verifier::external_body]
    pub(crate) fn clear(&self) {
        self.inner.clear()
    }
}

} // verus!
