//! The recorder: every instrumentation call resolves to a handle of the
//! shared registry

use crate::data::MetricKey;
use crate::registry::MetricRegistry;
use vstd::prelude::*;

verus! {

/// Metric recorder
pub struct DataDogRecorder {
    registry: MetricRegistry,
}

impl DataDogRecorder {
    pub(crate) fn new(registry: MetricRegistry) -> (r: DataDogRecorder)
        ensures
            r.registry() == registry,
    {
        DataDogRecorder { registry }
    }

    /// The handle to the registry that the recorder writes to
    pub closed spec fn registry(&self) -> MetricRegistry {
        self.registry
    }

    /// The counter of `key`; the first call for a key creates it. The
    /// handle adds as `metrics` does on an atomic cell: modulo 2^64.
    pub fn register_counter(&self, key: &MetricKey) -> metrics::Counter {
        self.registry.counter(key)
    }

    /// The gauge of `key`; the first call for a key creates it
    pub fn register_gauge(&self, key: &MetricKey) -> metrics::Gauge {
        self.registry.gauge(key)
    }

    /// The histogram of `key`; the first call for a key creates it
    pub fn register_histogram(&self, key: &MetricKey) -> metrics::Histogram {
        self.registry.histogram(key)
    }
}

} // verus!
