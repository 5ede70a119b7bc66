//! Configuration of the exporter

use crate::data::{clone_labels, labels_view, Label, LabelView};
use crate::exporter::DataDogExporter;
use crate::recorder::DataDogRecorder;
use crate::registry::MetricRegistry;
use crate::DataDogHandle;
use std::time::Duration;
use vstd::prelude::*;

verus! {

/// What the exporter is configured with
#[derive(Debug)]
pub struct DataDogConfig {
    /// Write metrics to the text stream
    pub write_to_stdout: bool,
    /// Send metrics to the API
    pub write_to_api: bool,
    /// API host
    pub api_host: String,
    /// API key
    pub api_key: Option<String>,
    /// Tags sent with every metric
    pub tags: Vec<Label>,
    /// Timeout of one request
    pub client_timeout: Option<Duration>,
    /// Compress the requests
    pub gzip: bool,
}

/// Mathematical model of a [`DataDogConfig`] and of a [`DataDogBuilder`]
pub struct DataDogConfigView {
    pub write_to_stdout: bool,
    pub write_to_api: bool,
    pub api_host: Seq<char>,
    pub api_key: Option<Seq<char>>,
    pub tags: Seq<LabelView>,
    pub client_timeout: Option<Duration>,
    pub gzip: bool,
}

/// The model of a string that may be absent
pub open spec fn optional_view(text: Option<String>) -> Option<Seq<char>> {
    match text {
        Some(s) => Some(s@),
        None => None,
    }
}

impl View for DataDogConfig {
    type V = DataDogConfigView;

    open spec fn view(&self) -> DataDogConfigView {
        DataDogConfigView {
            write_to_stdout: self.write_to_stdout,
            write_to_api: self.write_to_api,
            api_host: self.api_host@,
            api_key: optional_view(self.api_key),
            tags: labels_view(self.tags@),
            client_timeout: self.client_timeout,
            gzip: self.gzip,
        }
    }
}

/// Builder for creating a DataDog recorder and exporter
#[derive(Debug)]
pub struct DataDogBuilder {
    write_to_stdout: bool,
    write_to_api: bool,
    api_host: String,
    api_key: Option<String>,
    tags: Vec<Label>,
    client_timeout: Option<Duration>,
    gzip: bool,
}

impl View for DataDogBuilder {
    type V = DataDogConfigView;

    closed spec fn view(&self) -> DataDogConfigView {
        DataDogConfigView {
            write_to_stdout: self.write_to_stdout,
            write_to_api: self.write_to_api,
            api_host: self.api_host@,
            api_key: optional_view(self.api_key),
            tags: labels_view(self.tags@),
            client_timeout: self.client_timeout,
            gzip: self.gzip,
        }
    }
}

/// Pairs of key and value as labels, in order
pub open spec fn pairs_as_labels(pairs: Seq<(String, String)>) -> Seq<LabelView> {
    pairs.map_values(|p: (String, String)| LabelView { key: p.0@, value: p.1@ })
}

impl DataDogBuilder {
    /// Creates a new [`DataDogBuilder`]: it writes to the text stream and
    /// not to the API, with no key, no tags and no timeout, and compresses
    pub fn default() -> (r: Self)
        ensures
            r@ == (DataDogConfigView {
                write_to_stdout: true,
                write_to_api: false,
                api_host: "https://api.datadoghq.com/api/v1"@,
                api_key: None,
                tags: Seq::empty(),
                client_timeout: None,
                gzip: true,
            }),
    {
        let tags: Vec<Label> = Vec::new();
        assert(labels_view(tags@) =~= Seq::<LabelView>::empty());
        DataDogBuilder {
            write_to_stdout: true,
            write_to_api: false,
            api_host: String::from_str("https://api.datadoghq.com/api/v1"),
            api_key: None,
            tags,
            client_timeout: None,
            gzip: true,
        }
    }

    /// Write metrics to stdout in DataDog JSON format
    #[must_use]
    pub fn write_to_stdout(self, b: bool) -> (r: DataDogBuilder)
        ensures
            r@ == (DataDogConfigView { write_to_stdout: b, ..self@ }),
    {
        DataDogBuilder { write_to_stdout: b, ..self }
    }

    /// Write metrics to DataDog API
    #[must_use]
    pub fn write_to_api(self, b: bool, api_key: Option<String>) -> (r: DataDogBuilder)
        ensures
            r@ == (DataDogConfigView {
                write_to_api: b,
                api_key: optional_view(api_key),
                ..self@
            }),
    {
        DataDogBuilder { write_to_api: b, api_key, ..self }
    }

    /// Set DataDog API host
    #[must_use]
    pub fn api_host(self, api_host: String) -> (r: DataDogBuilder)
        ensures
            r@ == (DataDogConfigView { api_host: api_host@, ..self@ }),
    {
        DataDogBuilder { api_host, ..self }
    }

    /// Set tags to send with metrics
    #[must_use]
    pub fn tags(self, tags: Vec<(String, String)>) -> (r: DataDogBuilder)
        ensures
            r@ == (DataDogConfigView { tags: pairs_as_labels(tags@), ..self@ }),
    {
        let mut labels: Vec<Label> = Vec::new();
        let mut i: usize = 0;
        while i < tags.len()
            invariant
                i <= tags.len(),
                labels.len() == i,
                forall|j: int| 0 <= j < i ==> labels[j]@ == pairs_as_labels(tags@)[j],
            decreases tags.len() - i,
        {
            labels.push(Label::new(tags[i].0.clone(), tags[i].1.clone()));
            i += 1;
        }
        assert(labels_view(labels@) =~= pairs_as_labels(tags@));
        DataDogBuilder { tags: labels, ..self }
    }

    /// Set client timeout
    pub fn client_timeout(self, timeout: Duration) -> (r: DataDogBuilder)
        ensures
            r@ == (DataDogConfigView { client_timeout: Some(timeout), ..self@ }),
    {
        DataDogBuilder { client_timeout: Some(timeout), ..self }
    }

    /// Set compression
    pub fn gzip(self, gzip: bool) -> (r: DataDogBuilder)
        ensures
            r@ == (DataDogConfigView { gzip, ..self@ }),
    {
        DataDogBuilder { gzip, ..self }
    }

    /// Build [`DataDogHandle`]: a recorder and an exporter on one new
    /// registry, the exporter configured as the builder is
    pub fn build(self) -> (r: DataDogHandle)
        ensures
            r.handle.config()@ == self@,
    {
        let registry = MetricRegistry::new();
        let recorder = DataDogRecorder::new(registry.share());
        let config = DataDogConfig {
            write_to_stdout: self.write_to_stdout,
            write_to_api: self.write_to_api,
            api_host: self.api_host,
            api_key: self.api_key,
            tags: self.tags,
            client_timeout: self.client_timeout,
            gzip: self.gzip,
        };
        let handle = DataDogExporter::new(registry, config);
        DataDogHandle { recorder, handle }
    }
}

} // verus!
