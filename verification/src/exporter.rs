//! DataDog HTTP API exporter

use crate::builder::DataDogConfig;
use crate::collector::{
    metrics_view, snapshot_metrics, snapshot_records, RegistrySnapshot,
};
use crate::data::{
    labels_view, lines_view, metric_lines, metric_series, series_view, DataDogMetric,
    DataDogMetricLine, DataDogMetricLineView, DataDogMetricView, DataDogSeries,
    DataDogSeriesView,
};
use crate::payload::{bodies_view, metric_requests, reports, request_bodies, SplitFailure};
use crate::registry::{distinct_keys, MetricRegistry};
use crate::Error;
use vstd::prelude::*;

verus! {

/// Metric exporter
pub struct DataDogExporter {
    registry: MetricRegistry,
    config: DataDogConfig,
}

/// The lines of a batch of records: those of the first record, then those
/// of the second, and so on
pub open spec fn batch_lines(metrics: Seq<DataDogMetricView>) -> Seq<DataDogMetricLineView> {
    metrics.map_values(|m: DataDogMetricView| metric_lines(m)).flatten()
}

/// The series of a batch of records: those of the first record, then
/// those of the second, and so on
pub open spec fn batch_series(metrics: Seq<DataDogMetricView>) -> Seq<DataDogSeriesView> {
    metrics.map_values(|m: DataDogMetricView| metric_series(m)).flatten()
}

/// Whether `records` can have come out of one drain that read `snapshot`
/// at `timestamp`: no key of the snapshot comes twice within its kind, and
/// the records are those of the snapshot
pub open spec fn collected_from(
    records: Seq<DataDogMetricView>,
    snapshot: RegistrySnapshot,
    config: DataDogConfig,
    timestamp: i64,
) -> bool {
    &&& distinct_keys(snapshot.counters@)
    &&& distinct_keys(snapshot.gauges@)
    &&& distinct_keys(snapshot.histograms@)
    &&& records == snapshot_records(snapshot@, labels_view(config.tags@), timestamp)
}

/// What one flush cycle hands to the sinks
#[derive(Debug, PartialEq, Eq)]
pub struct FlushPlan {
    /// The lines for the text stream, in order; none where the stream is
    /// off
    pub lines: Vec<DataDogMetricLine>,
    /// The series for the API, in order; `None` where the API is off or
    /// the batch is empty
    pub series: Option<Vec<DataDogSeries>>,
}

/// Whether `plan` is what the sinks get for the batch `metrics` under
/// `config`: the text stream, where it is on, gets every line of the
/// batch; the API, where it is on and the batch is not empty, gets every
/// series of the batch
pub open spec fn planned(
    plan: FlushPlan,
    metrics: Seq<DataDogMetricView>,
    config: DataDogConfig,
) -> bool {
    &&& lines_view(plan.lines@) == if config.write_to_stdout {
        batch_lines(metrics)
    } else {
        Seq::empty()
    }
    &&& plan.series is Some <==> config.write_to_api && metrics.len() > 0
    &&& plan.series matches Some(series) ==> series_view(series@) == batch_series(metrics)
}

impl DataDogExporter {
    pub(crate) fn new(registry: MetricRegistry, config: DataDogConfig) -> (r: Self)
        ensures
            *r.config() == config,
    {
        DataDogExporter { registry, config }
    }

    /// What the exporter is configured with
    pub closed spec fn spec_config(&self) -> &DataDogConfig {
        &self.config
    }

    /// What the exporter is configured with
    #[verifier::when_used_as_spec(spec_config)]
    pub fn config(&self) -> (r: &DataDogConfig)
        ensures
            r == self.spec_config(),
    {
        &self.config
    }

    /// Reads every handle of the registry, then empties the registry.
    /// These are two steps: what another thread writes between them is in
    /// no snapshot.
    pub fn drain(&self) -> (r: RegistrySnapshot)
        ensures
            distinct_keys(r.counters@),
            distinct_keys(r.gauges@),
            distinct_keys(r.histograms@),
    {
        let counters = self.registry.counters();
        let gauges = self.registry.gauges();
        let histograms = self.registry.histograms();
        self.registry.clear();
        RegistrySnapshot { counters, gauges, histograms }
    }

    /// Collect metrics, captured at `timestamp`
    ///
    /// Note: This will clear the registry, histogram observations included
    pub fn collect(&self, timestamp: i64) -> (r: Vec<DataDogMetric>)
        ensures
            exists|snapshot: RegistrySnapshot| #[trigger]
                collected_from(metrics_view(r@), snapshot, *self.config(), timestamp),
    {
        let snapshot = self.drain();
        let metrics = snapshot_metrics(&snapshot, self.config.tags.as_slice(), timestamp);
        assert(collected_from(metrics_view(metrics@), snapshot, *self.config(), timestamp));
        metrics
    }

    /// What the sinks get for a batch of records
    pub fn plan(&self, metrics: &[DataDogMetric]) -> (r: FlushPlan)
        ensures
            planned(r, metrics_view(metrics@), *self.config()),
    {
        let lines = if self.config.write_to_stdout {
            stdout_lines(metrics)
        } else {
            let none: Vec<DataDogMetricLine> = Vec::new();
            assert(lines_view(none@) =~= Seq::<DataDogMetricLineView>::empty());
            none
        };
        let series = if self.config.write_to_api {
            api_series(metrics)
        } else {
            None
        };
        FlushPlan { lines, series }
    }

    /// Flush metrics: collects them at `timestamp`, which clears the
    /// registry, and says what goes to each sink
    pub fn flush(&self, timestamp: i64) -> (r: FlushPlan)
        ensures
            exists|metrics: Seq<DataDogMetricView>, snapshot: RegistrySnapshot|
                #![trigger collected_from(metrics, snapshot, *self.config(), timestamp)]
                collected_from(metrics, snapshot, *self.config(), timestamp) && planned(
                    r,
                    metrics,
                    *self.config(),
                ),
    {
        let metrics = self.collect(timestamp);
        let plan = self.plan(metrics.as_slice());
        proof {
            let snapshot = choose|snapshot: RegistrySnapshot| #[trigger]
                collected_from(metrics_view(metrics@), snapshot, *self.config(), timestamp);
            assert(collected_from(metrics_view(metrics@), snapshot, *self.config(), timestamp)
                && planned(plan, metrics_view(metrics@), *self.config()));
        }
        plan
    }
}

/// The lines that the text stream gets for a batch of records: one for
/// each data point, record after record
pub fn stdout_lines(metrics: &[DataDogMetric]) -> (r: Vec<DataDogMetricLine>)
    ensures
        lines_view(r@) == batch_lines(metrics_view(metrics@)),
{
    let ghost views = metrics_view(metrics@);
    let ghost parts = views.map_values(|m: DataDogMetricView| metric_lines(m));
    let mut lines: Vec<DataDogMetricLine> = Vec::new();
    let mut i: usize = 0;
    assert(parts.subrange(0, 0) =~= Seq::<Seq<DataDogMetricLineView>>::empty());
    assert(lines_view(lines@) =~= parts.subrange(0, 0).flatten());
    while i < metrics.len()
        invariant
            i <= metrics.len(),
            views == metrics_view(metrics@),
            parts == views.map_values(|m: DataDogMetricView| metric_lines(m)),
            lines_view(lines@) == parts.subrange(0, i as int).flatten(),
        decreases metrics.len() - i,
    {
        let ghost before = lines_view(lines@);
        let mut more = metrics[i].to_metric_lines();
        let ghost added = lines_view(more@);
        lines.append(&mut more);
        proof {
            assert(lines_view(lines@) =~= before + added);
            assert(parts.subrange(0, i + 1) =~= parts.subrange(0, i as int).push(parts[i as int]));
            parts.subrange(0, i as int).lemma_flatten_push(parts[i as int]);
        }
        i += 1;
    }
    assert(parts.subrange(0, metrics.len() as int) =~= parts);
    lines
}

/// The series that the API gets for a batch of records: those of each
/// record, record after record; for an empty batch nothing is sent
pub fn api_series(metrics: &[DataDogMetric]) -> (r: Option<Vec<DataDogSeries>>)
    ensures
        metrics@.len() == 0 ==> r is None,
        metrics@.len() > 0 ==> (r matches Some(series) && series_view(series@) == batch_series(
            metrics_view(metrics@),
        )),
{
    if metrics.len() == 0 {
        return None;
    }
    let ghost views = metrics_view(metrics@);
    let ghost parts = views.map_values(|m: DataDogMetricView| metric_series(m));
    let mut series: Vec<DataDogSeries> = Vec::new();
    let mut i: usize = 0;
    assert(parts.subrange(0, 0) =~= Seq::<Seq<DataDogSeriesView>>::empty());
    assert(series_view(series@) =~= parts.subrange(0, 0).flatten());
    while i < metrics.len()
        invariant
            i <= metrics.len(),
            views == metrics_view(metrics@),
            parts == views.map_values(|m: DataDogMetricView| metric_series(m)),
            series_view(series@) == parts.subrange(0, i as int).flatten(),
        decreases metrics.len() - i,
    {
        let ghost before = series_view(series@);
        let mut more = DataDogSeries::new(metrics[i].clone());
        let ghost added = series_view(more@);
        series.append(&mut more);
        proof {
            assert(series_view(series@) =~= before + added);
            assert(parts.subrange(0, i + 1) =~= parts.subrange(0, i as int).push(parts[i as int]));
            parts.subrange(0, i as int).lemma_flatten_push(parts[i as int]);
        }
        i += 1;
    }
    assert(parts.subrange(0, metrics.len() as int) =~= parts);
    Some(series)
}

/// One request to the API, ready to be sent
#[derive(Debug, PartialEq, Eq)]
pub struct ApiRequest {
    /// Where the request is posted
    pub url: String,
    /// Header names and values, in order
    pub headers: Vec<(String, String)>,
    /// The bytes of the body
    pub body: Vec<u8>,
}

/// Mathematical model of an [`ApiRequest`]
pub struct ApiRequestView {
    pub url: Seq<char>,
    pub headers: Seq<(Seq<char>, Seq<char>)>,
    pub body: Seq<u8>,
}

/// The models of header names and values, in order
pub open spec fn headers_view(headers: Seq<(String, String)>) -> Seq<(Seq<char>, Seq<char>)> {
    headers.map_values(|h: (String, String)| (h.0@, h.1@))
}

impl View for ApiRequest {
    type V = ApiRequestView;

    open spec fn view(&self) -> ApiRequestView {
        ApiRequestView { url: self.url@, headers: headers_view(self.headers@), body: self.body@ }
    }
}

/// The models of a sequence of requests, in order
pub open spec fn requests_view(requests: Seq<ApiRequest>) -> Seq<ApiRequestView> {
    requests.map_values(|r: ApiRequest| r@)
}

/// The headers of a request: the credential, the content type and, for a
/// compressed body, the content encoding
pub open spec fn request_headers(api_key: Seq<char>, gzip: bool) -> Seq<(Seq<char>, Seq<char>)> {
    let always = seq![("DD-API-KEY"@, api_key), ("Content-Type"@, "application/json"@)];
    if gzip {
        always.push(("Content-Encoding"@, "gzip"@))
    } else {
        always
    }
}

/// The request that carries `body`: posted to the path `/series` under
/// the host
pub open spec fn api_request(
    api_host: Seq<char>,
    api_key: Seq<char>,
    gzip: bool,
    body: Seq<u8>,
) -> ApiRequestView {
    ApiRequestView { url: api_host + "/series"@, headers: request_headers(api_key, gzip), body }
}

/// The requests of one cycle: one for each body that [`metric_requests`]
/// makes of the encoded series, in order
pub fn api_requests(series: &[Vec<u8>], gzip: bool, api_host: &str, api_key: &str) -> (r: Result<
    Vec<ApiRequest>,
    Error,
>)
    ensures
        match r {
            Ok(requests) => request_bodies(bodies_view(series@), gzip) matches Ok(bodies)
                && requests_view(requests@) == bodies.map_values(
                |body: Seq<u8>| api_request(api_host@, api_key@, gzip, body),
            ),
            Err(e) => request_bodies(bodies_view(series@), gzip) matches Err(failure) && reports(
                e,
                failure,
            ),
        },
{
    let mut bodies = match metric_requests(series, gzip) {
        Ok(bodies) => bodies,
        Err(e) => {
            return Err(e);
        },
    };
    let ghost all = bodies_view(bodies@);
    let ghost make = |body: Seq<u8>| api_request(api_host@, api_key@, gzip, body);
    let mut requests: Vec<ApiRequest> = Vec::new();
    let n = bodies.len();
    let mut i: usize = 0;
    while i < n
        invariant
            n == bodies.len(),
            i <= n,
            all == bodies_view(bodies@),
            make == |body: Seq<u8>| api_request(api_host@, api_key@, gzip, body),
            requests.len() == i,
            forall|j: int| 0 <= j < i ==> requests[j]@ == make(all[j]),
        decreases n - i,
    {
        let mut url = String::from_str(api_host);
        url.append("/series");
        let mut headers: Vec<(String, String)> = Vec::new();
        headers.push((String::from_str("DD-API-KEY"), String::from_str(api_key)));
        headers.push((String::from_str("Content-Type"), String::from_str("application/json")));
        if gzip {
            headers.push((String::from_str("Content-Encoding"), String::from_str("gzip")));
        }
        assert(headers_view(headers@) =~= request_headers(api_key@, gzip));
        let body = bodies[i].clone();
        assert(body@ =~= all[i as int]);
        requests.push(ApiRequest { url, headers, body });
        i += 1;
    }
    assert(requests_view(requests@) =~= all.map_values(make));
    Ok(requests)
}

/// Whether the API took a body: the status of the response is one of the
/// 2xx
pub fn chunk_delivered(status: u16) -> (r: bool)
    ensures
        r == (200 <= status < 300),
{
    200 <= status && status < 300
}

/// Whether a cycle succeeded: the API took every body
pub fn cycle_delivered(statuses: &[u16]) -> (r: bool)
    ensures
        r == forall|i: int| 0 <= i < statuses@.len() ==> 200 <= #[trigger] statuses@[i] < 300,
{
    let mut i: usize = 0;
    while i < statuses.len()
        invariant
            i <= statuses.len(),
            forall|j: int| 0 <= j < i ==> 200 <= #[trigger] statuses@[j] < 300,
        decreases statuses.len() - i,
    {
        if !chunk_delivered(statuses[i]) {
            return false;
        }
        i += 1;
    }
    true
}

/// The period of the schedule in whole seconds, as the scheduler counts
/// them: the seconds of the interval modulo 2^32
pub fn schedule_period(interval_seconds: u64) -> (r: u32)
    ensures
        r == interval_seconds % 0x1_0000_0000,
{
    (interval_seconds % 0x1_0000_0000) as u32
}

} // verus!
