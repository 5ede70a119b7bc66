//! Exports metrics to DataDog: the aggregation registry is drained into
//! metric records, the records are expanded into series, and the encoded
//! series are framed, split and compressed into request bodies.

use crate::collector::RegistrySnapshot;
use crate::data::DataDogMetricView;
use crate::exporter::{collected_from, planned, FlushPlan};
use vstd::prelude::*;

pub mod builder;
pub mod collector;
pub mod data;
pub mod exporter;
pub mod payload;
pub mod recorder;
pub mod registry;

pub use crate::builder::DataDogBuilder;
pub use crate::data::DataDogMetric;
pub use crate::data::DataDogMetricType;
pub use crate::data::DataDogMetricValue;
pub use crate::exporter::DataDogExporter;
pub use crate::recorder::DataDogRecorder;

verus! {

/// The error that `std::io` reports; carried, never inspected.
#[verifier::external_type_specification]
#[verifier::external_body]
pub struct ExIoError(std::io::Error);

/// Error handling metrics
#[derive(Debug)]
pub enum Error {
    /// Error compressing or decompressing
    IOError(std::io::Error),
    /// A single series does not fit the size ceilings of a request
    SeriesTooLarge,
}

/// Handle to metrics
pub struct DataDogHandle {
    /// Metric recorder
    pub recorder: DataDogRecorder,
    /// Metric exporter
    pub handle: DataDogExporter,
}

impl DataDogHandle {
    /// Flush metrics: collects them at `timestamp`, which clears the
    /// registry, and says what goes to each sink
    pub fn flush(&self, timestamp: i64) -> (r: FlushPlan)
        ensures
            exists|metrics: Seq<DataDogMetricView>, snapshot: RegistrySnapshot|
                #![trigger collected_from(metrics, snapshot, *self.handle.config(), timestamp)]
                collected_from(metrics, snapshot, *self.handle.config(), timestamp) && planned(
                    r,
                    metrics,
                    *self.handle.config(),
                ),
    {
        self.handle.flush(timestamp)
    }
}

} // verus!
