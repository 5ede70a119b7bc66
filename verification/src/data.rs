//! Data model

use vstd::prelude::*;

verus! {

/// Metric type
#[derive(Debug, Clone, Copy, PartialEq, Eq, PartialOrd, Ord, Hash, Structural)]
pub enum DataDogMetricType {
    /// Counter
    Count,
    /// Gauge
    Gauge,
    /// Histogram
    Histogram,
}

/// Metric value
///
/// A floating-point value is held as its IEEE 754 binary64 bit pattern, so
/// two such values are equal exactly when their bit patterns are.
#[derive(Debug, Clone, Copy, PartialEq, Eq, Hash, Structural)]
pub enum DataDogMetricValue {
    /// Float, as its bit pattern
    Float(u64),
    /// Unsigned
    Unsigned(u64),
}

/// One `(key, value)` pair attached to a metric
#[derive(Debug, PartialEq, Eq, Hash)]
pub struct Label {
    /// Label key
    pub key: String,
    /// Label value
    pub value: String,
}

/// Mathematical model of a [`Label`]
pub struct LabelView {
    pub key: Seq<char>,
    pub value: Seq<char>,
}

impl View for Label {
    type V = LabelView;

    open spec fn view(&self) -> LabelView {
        LabelView { key: self.key@, value: self.value@ }
    }
}

/// The models of a sequence of labels, in order
pub open spec fn labels_view(labels: Seq<Label>) -> Seq<LabelView> {
    labels.map_values(|l: Label| l@)
}

/// The models of a sequence of strings, in order
pub open spec fn strings_view(strings: Seq<String>) -> Seq<Seq<char>> {
    strings.map_values(|s: String| s@)
}

/// A label rendered as a tag: key, a colon, value
pub open spec fn tag_text(label: LabelView) -> Seq<char> {
    label.key + seq![':'] + label.value
}

/// The tags of a record: the global labels first, then the metric's own,
/// each rendered by [`tag_text`], in declaration order
pub open spec fn resolved_tags(global: Seq<LabelView>, own: Seq<LabelView>) -> Seq<Seq<char>> {
    (global + own).map_values(|l: LabelView| tag_text(l))
}

impl Clone for Label {
    fn clone(&self) -> (r: Self)
        ensures
            r == *self,
    {
        Label { key: self.key.clone(), value: self.value.clone() }
    }
}

impl Label {
    /// Creates a label from a key and a value
    pub fn new(key: String, value: String) -> (r: Label)
        ensures
            r.key == key,
            r.value == value,
    {
        Label { key, value }
    }

    /// Renders the label as a `key:value` tag
    pub fn tag(&self) -> (r: String)
        ensures
            r@ == tag_text(self@),
    {
        let mut text = self.key.clone();
        proof {
            reveal_strlit(":");
        }
        assert(":"@ =~= seq![':']);
        text.append(":");
        text.append(self.value.as_str());
        text
    }
}

/// Copies a vector of strings
pub fn clone_strings(strings: &Vec<String>) -> (r: Vec<String>)
    ensures
        strings_view(r@) == strings_view(strings@),
{
    let mut out: Vec<String> = Vec::new();
    let mut i: usize = 0;
    while i < strings.len()
        invariant
            i <= strings.len(),
            out.len() == i,
            forall|j: int| 0 <= j < i ==> out[j]@ == strings[j]@,
        decreases strings.len() - i,
    {
        out.push(strings[i].clone());
        i += 1;
    }
    assert(strings_view(out@) =~= strings_view(strings@));
    out
}

/// The identity of a metric: its name and its labels, in declaration order
#[derive(Debug, PartialEq, Eq, Hash)]
pub struct MetricKey {
    /// Metric name
    pub name: String,
    /// Labels given where the metric is recorded
    pub labels: Vec<Label>,
}

/// Mathematical model of a [`MetricKey`]
pub struct MetricKeyView {
    pub name: Seq<char>,
    pub labels: Seq<LabelView>,
}

impl View for MetricKey {
    type V = MetricKeyView;

    open spec fn view(&self) -> MetricKeyView {
        MetricKeyView { name: self.name@, labels: labels_view(self.labels@) }
    }
}

/// Copies a slice of labels
pub fn clone_labels(labels: &[Label]) -> (r: Vec<Label>)
    ensures
        labels_view(r@) == labels_view(labels@),
{
    let mut out: Vec<Label> = Vec::new();
    let mut i: usize = 0;
    while i < labels.len()
        invariant
            i <= labels.len(),
            out.len() == i,
            forall|j: int| 0 <= j < i ==> out[j]@ == labels[j]@,
        decreases labels.len() - i,
    {
        out.push(labels[i].clone());
        i += 1;
    }
    assert(labels_view(out@) =~= labels_view(labels@));
    out
}

impl Clone for MetricKey {
    fn clone(&self) -> (r: Self)
        ensures
            r@ == self@,
    {
        MetricKey { name: self.name.clone(), labels: clone_labels(self.labels.as_slice()) }
    }
}

impl MetricKey {
    /// Creates a key from a name and labels
    pub fn new(name: String, labels: Vec<Label>) -> (r: MetricKey)
        ensures
            r.name == name,
            r.labels == labels,
    {
        MetricKey { name, labels }
    }

    /// Whether two keys name the same metric: the names and the full label
    /// lists match
    pub fn same(&self, other: &MetricKey) -> (r: bool)
        ensures
            r == (self@ == other@),
    {
        if self.name != other.name {
            return false;
        }
        if self.labels.len() != other.labels.len() {
            assert(self@.labels.len() != other@.labels.len());
            return false;
        }
        let mut i: usize = 0;
        while i < self.labels.len()
            invariant
                i <= self.labels.len(),
                self.labels.len() == other.labels.len(),
                forall|j: int| 0 <= j < i ==> self.labels[j]@ == other.labels[j]@,
            decreases self.labels.len() - i,
        {
            if self.labels[i].key != other.labels[i].key || self.labels[i].value
                != other.labels[i].value {
                assert(self@.labels[i as int] != other@.labels[i as int]);
                return false;
            }
            i += 1;
        }
        assert(self@.labels =~= other@.labels);
        true
    }
}

/// DataDog formatted metric
#[derive(Debug, PartialEq, Eq)]
pub struct DataDogMetric {
    /// Metric name
    pub metric: String,
    /// Metric type
    pub metric_type: DataDogMetricType,
    /// Metric values
    pub points: Vec<DataDogMetricValue>,
    /// Timestamp
    pub timestamp: i64,
    /// Tags
    pub tags: Vec<String>,
}

/// Mathematical model of a [`DataDogMetric`]
pub struct DataDogMetricView {
    pub metric: Seq<char>,
    pub metric_type: DataDogMetricType,
    pub points: Seq<DataDogMetricValue>,
    pub timestamp: i64,
    pub tags: Seq<Seq<char>>,
}

impl View for DataDogMetric {
    type V = DataDogMetricView;

    open spec fn view(&self) -> DataDogMetricView {
        DataDogMetricView {
            metric: self.metric@,
            metric_type: self.metric_type,
            points: self.points@,
            timestamp: self.timestamp,
            tags: strings_view(self.tags@),
        }
    }
}

/// The record of one metric: named after the key, holding the given
/// points, tagged with the global labels followed by the key's own
pub open spec fn metric_record(
    metric_type: DataDogMetricType,
    key: MetricKeyView,
    points: Seq<DataDogMetricValue>,
    global: Seq<LabelView>,
    timestamp: i64,
) -> DataDogMetricView {
    DataDogMetricView {
        metric: key.name,
        metric_type,
        points,
        timestamp,
        tags: resolved_tags(global, key.labels),
    }
}

/// Counter totals as points
pub open spec fn unsigned_points(values: Seq<u64>) -> Seq<DataDogMetricValue> {
    values.map_values(|v: u64| DataDogMetricValue::Unsigned(v))
}

/// Bit patterns of floating-point values as points
pub open spec fn float_points(bits: Seq<u64>) -> Seq<DataDogMetricValue> {
    bits.map_values(|b: u64| DataDogMetricValue::Float(b))
}

/// The models of a sequence of sample buffers, in order
pub open spec fn buffers_view(buffers: Seq<Vec<u64>>) -> Seq<Seq<u64>> {
    buffers.map_values(|b: Vec<u64>| b@)
}

/// Renders labels as tags, in order
fn render_tags(labels: &[Label], tags: &mut Vec<String>)
    ensures
        strings_view(final(tags)@) == strings_view(old(tags)@) + labels_view(labels@).map_values(
            |l: LabelView| tag_text(l),
        ),
{
    let ghost before = strings_view(tags@);
    let mut i: usize = 0;
    while i < labels.len()
        invariant
            i <= labels.len(),
            strings_view(tags@) == before + labels_view(labels@).subrange(0, i as int).map_values(
                |l: LabelView| tag_text(l),
            ),
        decreases labels.len() - i,
    {
        let ghost prev = strings_view(tags@);
        tags.push(labels[i].tag());
        assert(strings_view(tags@) =~= prev.push(tag_text(labels[i as int]@)));
        assert(labels_view(labels@).subrange(0, i + 1).map_values(|l: LabelView| tag_text(l))
            =~= labels_view(labels@).subrange(0, i as int).map_values(
            |l: LabelView| tag_text(l),
        ).push(tag_text(labels[i as int]@)));
        i += 1;
    }
    assert(labels_view(labels@).subrange(0, labels.len() as int) =~= labels_view(labels@));
}

impl Clone for DataDogMetric {
    fn clone(&self) -> (r: Self)
        ensures
            r@ == self@,
    {
        DataDogMetric {
            metric: self.metric.clone(),
            metric_type: self.metric_type,
            points: self.points.clone(),
            timestamp: self.timestamp,
            tags: clone_strings(&self.tags),
        }
    }
}

impl DataDogMetric {
    /// The record of the metric `key` with the given points, captured at
    /// `timestamp`
    pub fn from_metric_value(
        metric_type: DataDogMetricType,
        key: MetricKey,
        values: Vec<DataDogMetricValue>,
        global_tags: &[Label],
        timestamp: i64,
    ) -> (r: Self)
        ensures
            r@ == metric_record(
                metric_type,
                key@,
                values@,
                labels_view(global_tags@),
                timestamp,
            ),
    {
        let mut tags: Vec<String> = Vec::new();
        assert(strings_view(tags@) =~= Seq::<Seq<char>>::empty());
        render_tags(global_tags, &mut tags);
        render_tags(key.labels.as_slice(), &mut tags);
        assert(strings_view(tags@) =~= resolved_tags(labels_view(global_tags@), key@.labels));
        DataDogMetric { metric: key.name, metric_type, points: values, timestamp, tags }
    }

    /// The record of a counter captured at `timestamp`: one unsigned point
    /// for each total read
    pub fn from_counter(
        key: MetricKey,
        values: Vec<u64>,
        global_tags: &[Label],
        timestamp: i64,
    ) -> (r: Self)
        ensures
            r@ == metric_record(
                DataDogMetricType::Count,
                key@,
                unsigned_points(values@),
                labels_view(global_tags@),
                timestamp,
            ),
    {
        let mut points: Vec<DataDogMetricValue> = Vec::new();
        let mut i: usize = 0;
        while i < values.len()
            invariant
                i <= values.len(),
                points@ == unsigned_points(values@.subrange(0, i as int)),
            decreases values.len() - i,
        {
            points.push(DataDogMetricValue::Unsigned(values[i]));
            assert(points@ =~= unsigned_points(values@.subrange(0, i + 1)));
            i += 1;
        }
        assert(values@.subrange(0, values.len() as int) =~= values@);
        DataDogMetric::from_metric_value(
            DataDogMetricType::Count,
            key,
            points,
            global_tags,
            timestamp,
        )
    }

    /// The record of a gauge captured at `timestamp`: one floating-point
    /// point for each bit pattern read
    pub fn from_gauge(
        key: MetricKey,
        values: Vec<u64>,
        global_tags: &[Label],
        timestamp: i64,
    ) -> (r: Self)
        ensures
            r@ == metric_record(
                DataDogMetricType::Gauge,
                key@,
                float_points(values@),
                labels_view(global_tags@),
                timestamp,
            ),
    {
        let mut points: Vec<DataDogMetricValue> = Vec::new();
        let mut i: usize = 0;
        while i < values.len()
            invariant
                i <= values.len(),
                points@ == float_points(values@.subrange(0, i as int)),
            decreases values.len() - i,
        {
            points.push(DataDogMetricValue::Float(values[i]));
            assert(points@ =~= float_points(values@.subrange(0, i + 1)));
            i += 1;
        }
        assert(values@.subrange(0, values.len() as int) =~= values@);
        DataDogMetric::from_metric_value(
            DataDogMetricType::Gauge,
            key,
            points,
            global_tags,
            timestamp,
        )
    }

    /// The record of a histogram captured at `timestamp`: every sample of
    /// every buffer, buffer by buffer, each as a floating-point point
    pub fn from_histogram(
        key: MetricKey,
        values: Vec<Vec<u64>>,
        global_tags: &[Label],
        timestamp: i64,
    ) -> (r: Self)
        ensures
            r@ == metric_record(
                DataDogMetricType::Histogram,
                key@,
                float_points(buffers_view(values@).flatten()),
                labels_view(global_tags@),
                timestamp,
            ),
    {
        let mut points: Vec<DataDogMetricValue> = Vec::new();
        let mut i: usize = 0;
        assert(buffers_view(values@).subrange(0, 0) =~= Seq::<Seq<u64>>::empty());
        while i < values.len()
            invariant
                i <= values.len(),
                points@ == float_points(buffers_view(values@).subrange(0, i as int).flatten()),
            decreases values.len() - i,
        {
            let ghost done = buffers_view(values@).subrange(0, i as int);
            let buffer = &values[i];
            let mut j: usize = 0;
            while j < buffer.len()
                invariant
                    j <= buffer.len(),
                    points@ == float_points(done.flatten() + buffer@.subrange(0, j as int)),
                decreases buffer.len() - j,
            {
                points.push(DataDogMetricValue::Float(buffer[j]));
                assert(points@ =~= float_points(done.flatten() + buffer@.subrange(0, j + 1)));
                j += 1;
            }
            proof {
                assert(buffer@.subrange(0, buffer.len() as int) =~= buffer@);
                assert(buffers_view(values@).subrange(0, i + 1) =~= done.push(buffer@));
                done.lemma_flatten_push(buffer@);
            }
            i += 1;
        }
        assert(buffers_view(values@).subrange(0, values.len() as int) =~= buffers_view(values@));
        DataDogMetric::from_metric_value(
            DataDogMetricType::Histogram,
            key,
            points,
            global_tags,
            timestamp,
        )
    }
}

/// Text-stream representation of one data point of a metric
#[derive(Debug, PartialEq, Eq)]
pub struct DataDogMetricLine {
    /// Metric name
    pub name: String,
    /// Metric value
    pub value: DataDogMetricValue,
    /// Metric timestamp
    pub timestamp: i64,
    /// Metric tags
    pub tags: Vec<String>,
}

/// Mathematical model of a [`DataDogMetricLine`]
pub struct DataDogMetricLineView {
    pub name: Seq<char>,
    pub value: DataDogMetricValue,
    pub timestamp: i64,
    pub tags: Seq<Seq<char>>,
}

impl View for DataDogMetricLine {
    type V = DataDogMetricLineView;

    open spec fn view(&self) -> DataDogMetricLineView {
        DataDogMetricLineView {
            name: self.name@,
            value: self.value,
            timestamp: self.timestamp,
            tags: strings_view(self.tags@),
        }
    }
}

/// The models of a sequence of lines, in order
pub open spec fn lines_view(lines: Seq<DataDogMetricLine>) -> Seq<DataDogMetricLineView> {
    lines.map_values(|l: DataDogMetricLine| l@)
}

/// The lines of a record: one for each point, in order, each carrying the
/// record's name, timestamp and tags
pub open spec fn metric_lines(m: DataDogMetricView) -> Seq<DataDogMetricLineView> {
    Seq::new(
        m.points.len(),
        |i: int|
            DataDogMetricLineView {
                name: m.metric,
                value: m.points[i],
                timestamp: m.timestamp,
                tags: m.tags,
            },
    )
}

impl DataDogMetric {
    /// One line for each data point of the record
    pub fn to_metric_lines(&self) -> (r: Vec<DataDogMetricLine>)
        ensures
            lines_view(r@) == metric_lines(self@),
    {
        let mut lines: Vec<DataDogMetricLine> = Vec::new();
        let mut i: usize = 0;
        while i < self.points.len()
            invariant
                i <= self.points.len(),
                lines.len() == i,
                forall|j: int| 0 <= j < i ==> lines[j]@ == metric_lines(self@)[j],
            decreases self.points.len() - i,
        {
            lines.push(
                DataDogMetricLine {
                    name: self.metric.clone(),
                    value: self.points[i],
                    timestamp: self.timestamp,
                    tags: clone_strings(&self.tags),
                },
            );
            i += 1;
        }
        assert(lines_view(lines@) =~= metric_lines(self@));
        lines
    }
}

/// The most points that one series carries
pub const SERIES_POINTS: usize = 3;

/// DataDog Metric Series
#[derive(Debug, PartialEq, Eq)]
pub struct DataDogSeries {
    /// Metric interval
    pub interval: Option<i64>,
    /// Metric name
    pub metric: String,
    /// Metric time series
    pub points: Vec<(i64, DataDogMetricValue)>,
    /// Metric tags
    pub tags: Vec<String>,
    /// Metric type
    pub metric_type: DataDogMetricType,
}

/// Mathematical model of a [`DataDogSeries`]
pub struct DataDogSeriesView {
    pub interval: Option<i64>,
    pub metric: Seq<char>,
    pub points: Seq<(i64, DataDogMetricValue)>,
    pub tags: Seq<Seq<char>>,
    pub metric_type: DataDogMetricType,
}

impl View for DataDogSeries {
    type V = DataDogSeriesView;

    open spec fn view(&self) -> DataDogSeriesView {
        DataDogSeriesView {
            interval: self.interval,
            metric: self.metric@,
            points: self.points@,
            tags: strings_view(self.tags@),
            metric_type: self.metric_type,
        }
    }
}

/// The models of a sequence of series, in order
pub open spec fn series_view(series: Seq<DataDogSeries>) -> Seq<DataDogSeriesView> {
    series.map_values(|s: DataDogSeries| s@)
}

/// How many series a record of `points` points expands to
pub open spec fn series_count(points: nat) -> nat {
    (points + 2) / 3
}

/// Where the points of the series of index `j` end in a record of
/// `points` points
pub open spec fn series_end(points: nat, j: int) -> int {
    if 3 * j + 3 <= points {
        3 * j + 3
    } else {
        points as int
    }
}

/// The values of a series' points, without their timestamps
pub open spec fn series_values(series: DataDogSeriesView) -> Seq<DataDogMetricValue> {
    series.points.map_values(|p: (i64, DataDogMetricValue)| p.1)
}

/// The series of a record: its points in order, three to a series, the
/// last series holding what is left; each point carries the record's
/// timestamp, each series its name, tags and type, and no interval
pub open spec fn metric_series(m: DataDogMetricView) -> Seq<DataDogSeriesView> {
    Seq::new(
        series_count(m.points.len()),
        |j: int|
            DataDogSeriesView {
                interval: None,
                metric: m.metric,
                points: m.points.subrange(3 * j, series_end(m.points.len(), j)).map_values(
                    |v: DataDogMetricValue| (m.timestamp, v),
                ),
                tags: m.tags,
                metric_type: m.metric_type,
            },
    )
}

impl DataDogSeries {
    /// Create metric series from metric
    pub fn new(m: DataDogMetric) -> (r: Vec<DataDogSeries>)
        ensures
            series_view(r@) == metric_series(m@),
    {
        let mut out: Vec<DataDogSeries> = Vec::new();
        let n = m.points.len();
        let mut start: usize = 0;
        while start < n
            invariant
                n == m.points.len(),
                start <= n,
                out.len() <= series_count(n as nat),
                start < n ==> start == 3 * out.len(),
                start == n ==> out.len() == series_count(n as nat),
                forall|j: int| 0 <= j < out.len() ==> out[j]@ == metric_series(m@)[j],
            decreases n - start,
        {
            let end: usize = if n - start > SERIES_POINTS {
                start + SERIES_POINTS
            } else {
                n
            };
            assert(end as int == series_end(n as nat, out.len() as int));
            let mut points: Vec<(i64, DataDogMetricValue)> = Vec::new();
            let mut k: usize = start;
            while k < end
                invariant
                    start <= k <= end <= n,
                    n == m.points.len(),
                    points@ == m.points@.subrange(start as int, k as int).map_values(
                        |v: DataDogMetricValue| (m.timestamp, v),
                    ),
                decreases end - k,
            {
                points.push((m.timestamp, m.points[k]));
                assert(points@ =~= m.points@.subrange(start as int, k + 1).map_values(
                    |v: DataDogMetricValue| (m.timestamp, v),
                ));
                k += 1;
            }
            out.push(
                DataDogSeries {
                    interval: None,
                    metric: m.metric.clone(),
                    points,
                    tags: clone_strings(&m.tags),
                    metric_type: m.metric_type,
                },
            );
            start = end;
        }
        assert(series_view(out@) =~= metric_series(m@));
        out
    }
}

/// The points of the series of a record, series after series
pub open spec fn series_points_in_order(series: Seq<DataDogSeriesView>) -> Seq<
    DataDogMetricValue,
> {
    series.map_values(|s: DataDogSeriesView| series_values(s)).flatten()
}

/// Expanding a record into series loses no point and repeats none: the
/// points of its series, read series after series, are the record's points
/// in their order; and no series holds more than three points or none.
pub proof fn lemma_series_keep_points(m: DataDogMetricView)
    ensures
        series_points_in_order(metric_series(m)) == m.points,
        forall|j: int|
            0 <= j < metric_series(m).len() ==> 1 <= (#[trigger] metric_series(m)[j]).points.len()
                <= 3,
{
    let series = metric_series(m);
    let values = series.map_values(|s: DataDogSeriesView| series_values(s));
    let n = m.points.len();
    assert forall|j: int| 0 <= j < values.len() implies #[trigger] values[j]
        == m.points.subrange(3 * j, series_end(n, j)) by {
        assert(values[j] =~= m.points.subrange(3 * j, series_end(n, j)));
    }
    lemma_flatten_prefix(m.points, values, values.len() as int);
    assert(values.subrange(0, values.len() as int) =~= values);
    assert(m.points.subrange(0, n as int) =~= m.points);
    assert(values.len() > 0 ==> series_end(n, values.len() - 1) == n);
}

/// The first `k` batches of three, flattened, are the points before the
/// end of batch `k - 1`.
proof fn lemma_flatten_prefix(
    points: Seq<DataDogMetricValue>,
    batches: Seq<Seq<DataDogMetricValue>>,
    k: int,
)
    requires
        batches.len() == series_count(points.len()),
        0 <= k <= batches.len(),
        forall|j: int|
            0 <= j < batches.len() ==> #[trigger] batches[j] == points.subrange(
                3 * j,
                series_end(points.len(), j),
            ),
    ensures
        batches.subrange(0, k).flatten() == points.subrange(
            0,
            if k == 0 {
                0
            } else {
                series_end(points.len(), k - 1)
            },
        ),
    decreases k,
{
    if k == 0 {
        assert(batches.subrange(0, 0) =~= Seq::<Seq<DataDogMetricValue>>::empty());
        assert(points.subrange(0, 0) =~= Seq::<DataDogMetricValue>::empty());
    } else {
        lemma_flatten_prefix(points, batches, k - 1);
        let before = batches.subrange(0, k - 1);
        assert(batches.subrange(0, k) =~= before.push(batches[k - 1]));
        before.lemma_flatten_push(batches[k - 1]);
        assert(before.flatten() + batches[k - 1] =~= points.subrange(
            0,
            series_end(points.len(), k - 1),
        ));
    }
}

} // verus!
