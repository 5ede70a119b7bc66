//! The collector: turns what was read from the registry into metric
//! records

use crate::data::{
    buffers_view, float_points, labels_view, metric_record, unsigned_points, DataDogMetric,
    DataDogMetricType, DataDogMetricView, Label, LabelView, MetricKey, MetricKeyView,
};
use vstd::prelude::*;

verus! {

/// The models of a sequence of records, in order
pub open spec fn metrics_view(metrics: Seq<DataDogMetric>) -> Seq<DataDogMetricView> {
    metrics.map_values(|m: DataDogMetric| m@)
}

/// The keys of keyed entries, in order
pub open spec fn entry_keys<V>(entries: Seq<(MetricKeyView, V)>) -> Seq<MetricKeyView> {
    entries.map_values(|e: (MetricKeyView, V)| e.0)
}

/// The values of keyed entries, in order
pub open spec fn entry_values<V>(entries: Seq<(MetricKeyView, V)>) -> Seq<V> {
    entries.map_values(|e: (MetricKeyView, V)| e.1)
}

/// The models of entries that hold one number each
pub open spec fn scalar_entries_view(entries: Seq<(MetricKey, u64)>) -> Seq<(MetricKeyView, u64)> {
    entries.map_values(|e: (MetricKey, u64)| (e.0@, e.1))
}

/// The models of entries that hold a buffer of samples each
pub open spec fn buffer_entries_view(entries: Seq<(MetricKey, Vec<u64>)>) -> Seq<
    (MetricKeyView, Seq<u64>),
> {
    entries.map_values(|e: (MetricKey, Vec<u64>)| (e.0@, e.1@))
}

/// Where the run of equal keys that starts at `start` ends: the first
/// index behind `start` whose key differs from its predecessor's, or the
/// length of the sequence
pub open spec fn run_end(keys: Seq<MetricKeyView>, start: int) -> int
    decreases keys.len() - start,
{
    if start + 1 >= keys.len() {
        keys.len() as int
    } else if keys[start + 1] != keys[start] {
        start + 1
    } else {
        run_end(keys, start + 1)
    }
}

/// The runs of neighbouring entries with the same key, from `start` on:
/// each run as its key and its values in order
pub open spec fn runs_from<V>(entries: Seq<(MetricKeyView, V)>, start: int) -> Seq<
    (MetricKeyView, Seq<V>),
>
    decreases entries.len() - start,
{
    let end = run_end(entry_keys(entries), start);
    if start < 0 || start >= entries.len() || end <= start || end > entries.len() {
        Seq::empty()
    } else {
        seq![(entries[start].0, entry_values(entries.subrange(start, end)))] + runs_from(
            entries,
            end,
        )
    }
}

/// The entries grouped by key: neighbours with the same key form one
/// group, in the order of the entries
pub open spec fn group_runs<V>(entries: Seq<(MetricKeyView, V)>) -> Seq<(MetricKeyView, Seq<V>)> {
    runs_from(entries, 0)
}

/// A run is not empty, ends within the sequence, holds one key throughout
/// and cannot be longer.
pub proof fn lemma_run_end(keys: Seq<MetricKeyView>, start: int)
    requires
        0 <= start < keys.len(),
    ensures
        start < run_end(keys, start) <= keys.len(),
        forall|i: int| start <= i < run_end(keys, start) ==> keys[i] == keys[start],
        run_end(keys, start) < keys.len() ==> keys[run_end(keys, start)] != keys[start],
    decreases keys.len() - start,
{
    if start + 1 < keys.len() && keys[start + 1] == keys[start] {
        lemma_run_end(keys, start + 1);
    }
}

/// The end of the run of equal keys that starts at `start`
fn find_run_end<V>(entries: &Vec<(MetricKey, V)>, start: usize) -> (end: usize)
    requires
        start < entries.len(),
    ensures
        start < end <= entries.len(),
        end == run_end(entries@.map_values(|e: (MetricKey, V)| e.0@), start as int),
{
    let ghost keys = entries@.map_values(|e: (MetricKey, V)| e.0@);
    let n = entries.len();
    let mut end: usize = start + 1;
    let mut open: bool = end < n;
    while open
        invariant
            n == entries.len(),
            keys == entries@.map_values(|e: (MetricKey, V)| e.0@),
            start < end <= n,
            keys[end - 1] == keys[start as int],
            run_end(keys, end - 1) == run_end(keys, start as int),
            open ==> end < n,
            !open ==> run_end(keys, start as int) == end,
        decreases n - end + (if open { 1int } else { 0int }),
    {
        let matches = entries[end].0.same(&entries[start].0);
        proof {
            assert(keys[end as int] == entries[end as int].0@);
            assert(keys[start as int] == entries[start as int].0@);
            assert(matches ==> run_end(keys, end - 1) == run_end(keys, end as int));
            assert(!matches ==> run_end(keys, end - 1) == end);
        }
        if matches {
            end += 1;
            open = end < n;
        } else {
            open = false;
        }
    }
    end
}

/// The record of one group of counter totals or, where `gauge` is set,
/// of gauge values
pub open spec fn scalar_record(
    gauge: bool,
    group: (MetricKeyView, Seq<u64>),
    global: Seq<LabelView>,
    timestamp: i64,
) -> DataDogMetricView {
    if gauge {
        metric_record(
            DataDogMetricType::Gauge,
            group.0,
            float_points(group.1),
            global,
            timestamp,
        )
    } else {
        metric_record(
            DataDogMetricType::Count,
            group.0,
            unsigned_points(group.1),
            global,
            timestamp,
        )
    }
}

/// The record of one group of histogram buffers: every sample of every
/// buffer, buffer after buffer
pub open spec fn histogram_record(
    group: (MetricKeyView, Seq<Seq<u64>>),
    global: Seq<LabelView>,
    timestamp: i64,
) -> DataDogMetricView {
    metric_record(
        DataDogMetricType::Histogram,
        group.0,
        float_points(group.1.flatten()),
        global,
        timestamp,
    )
}

/// The records of counter entries or, where `gauge` is set, of gauge
/// entries: one for each group of [`group_runs`], in order
pub open spec fn scalar_records(
    gauge: bool,
    entries: Seq<(MetricKeyView, u64)>,
    global: Seq<LabelView>,
    timestamp: i64,
) -> Seq<DataDogMetricView> {
    group_runs(entries).map_values(
        |g: (MetricKeyView, Seq<u64>)| scalar_record(gauge, g, global, timestamp),
    )
}

/// The records of histogram entries: one for each group of
/// [`group_runs`], in order
pub open spec fn histogram_records(
    entries: Seq<(MetricKeyView, Seq<u64>)>,
    global: Seq<LabelView>,
    timestamp: i64,
) -> Seq<DataDogMetricView> {
    group_runs(entries).map_values(
        |g: (MetricKeyView, Seq<Seq<u64>>)| histogram_record(g, global, timestamp),
    )
}

/// What one drain of the registry read: every counter with its total,
/// every gauge with the bit pattern of its value, every histogram with the
/// bit patterns of its samples
#[derive(Debug, PartialEq, Eq)]
pub struct RegistrySnapshot {
    /// Counter totals
    pub counters: Vec<(MetricKey, u64)>,
    /// Gauge values
    pub gauges: Vec<(MetricKey, u64)>,
    /// Histogram samples
    pub histograms: Vec<(MetricKey, Vec<u64>)>,
}

/// Mathematical model of a [`RegistrySnapshot`]
pub struct RegistrySnapshotView {
    pub counters: Seq<(MetricKeyView, u64)>,
    pub gauges: Seq<(MetricKeyView, u64)>,
    pub histograms: Seq<(MetricKeyView, Seq<u64>)>,
}

impl View for RegistrySnapshot {
    type V = RegistrySnapshotView;

    open spec fn view(&self) -> RegistrySnapshotView {
        RegistrySnapshotView {
            counters: scalar_entries_view(self.counters@),
            gauges: scalar_entries_view(self.gauges@),
            histograms: buffer_entries_view(self.histograms@),
        }
    }
}

/// The records of a snapshot: those of the counters, then those of the
/// gauges, then those of the histograms
pub open spec fn snapshot_records(
    snapshot: RegistrySnapshotView,
    global: Seq<LabelView>,
    timestamp: i64,
) -> Seq<DataDogMetricView> {
    scalar_records(false, snapshot.counters, global, timestamp) + scalar_records(
        true,
        snapshot.gauges,
        global,
        timestamp,
    ) + histogram_records(snapshot.histograms, global, timestamp)
}

/// Appends the records of counter entries or, where `gauge` is set, of
/// gauge entries
fn push_scalar_records(
    entries: &Vec<(MetricKey, u64)>,
    gauge: bool,
    global_tags: &[Label],
    timestamp: i64,
    out: &mut Vec<DataDogMetric>,
)
    ensures
        metrics_view(final(out)@) == metrics_view(old(out)@) + scalar_records(
            gauge,
            scalar_entries_view(entries@),
            labels_view(global_tags@),
            timestamp,
        ),
{
    let ghost view = scalar_entries_view(entries@);
    let ghost global = labels_view(global_tags@);
    let ghost before = metrics_view(out@);
    let ghost record = |g: (MetricKeyView, Seq<u64>)| scalar_record(gauge, g, global, timestamp);
    let n = entries.len();
    let mut start: usize = 0;
    assert(before + runs_from(view, 0).map_values(record) =~= before + scalar_records(
        gauge,
        view,
        global,
        timestamp,
    ));
    while start < n
        invariant
            n == entries.len(),
            start <= n,
            view == scalar_entries_view(entries@),
            global == labels_view(global_tags@),
            record == |g: (MetricKeyView, Seq<u64>)| scalar_record(gauge, g, global, timestamp),
            metrics_view(out@) + runs_from(view, start as int).map_values(record)
                == before + scalar_records(gauge, view, global, timestamp),
        decreases n - start,
    {
        let end = find_run_end(entries, start);
        let ghost so_far = metrics_view(out@);
        let mut values: Vec<u64> = Vec::new();
        let mut k: usize = start;
        while k < end
            invariant
                start <= k <= end <= entries.len(),
                view == scalar_entries_view(entries@),
                values@ == entry_values(view.subrange(start as int, k as int)),
            decreases end - k,
        {
            values.push(entries[k].1);
            assert(values@ =~= entry_values(view.subrange(start as int, k + 1)));
            k += 1;
        }
        let key = entries[start].0.clone();
        let made = if gauge {
            DataDogMetric::from_gauge(key, values, global_tags, timestamp)
        } else {
            DataDogMetric::from_counter(key, values, global_tags, timestamp)
        };
        out.push(made);
        proof {
            assert(entry_keys(view) =~= entries@.map_values(|e: (MetricKey, u64)| e.0@));
            let group = (view[start as int].0, entry_values(view.subrange(start as int, end as int)));
            assert(runs_from(view, start as int) == seq![group] + runs_from(view, end as int));
            assert(metrics_view(out@) =~= so_far.push(record(group)));
            assert(so_far.push(record(group)) + runs_from(view, end as int).map_values(record)
                =~= so_far + runs_from(view, start as int).map_values(record));
        }
        start = end;
    }
    assert(runs_from(view, n as int) =~= Seq::<(MetricKeyView, Seq<u64>)>::empty());
    assert(metrics_view(out@) =~= metrics_view(out@) + runs_from(
        view,
        n as int,
    ).map_values(record));
}

/// Appends the records of histogram entries
fn push_histogram_records(
    entries: &Vec<(MetricKey, Vec<u64>)>,
    global_tags: &[Label],
    timestamp: i64,
    out: &mut Vec<DataDogMetric>,
)
    ensures
        metrics_view(final(out)@) == metrics_view(old(out)@) + histogram_records(
            buffer_entries_view(entries@),
            labels_view(global_tags@),
            timestamp,
        ),
{
    let ghost view = buffer_entries_view(entries@);
    let ghost global = labels_view(global_tags@);
    let ghost before = metrics_view(out@);
    let ghost record = |g: (MetricKeyView, Seq<Seq<u64>>)| histogram_record(g, global, timestamp);
    let n = entries.len();
    let mut start: usize = 0;
    assert(before + runs_from(view, 0).map_values(record) =~= before + histogram_records(
        view,
        global,
        timestamp,
    ));
    while start < n
        invariant
            n == entries.len(),
            start <= n,
            view == buffer_entries_view(entries@),
            global == labels_view(global_tags@),
            record == |g: (MetricKeyView, Seq<Seq<u64>>)| histogram_record(g, global, timestamp),
            metrics_view(out@) + runs_from(view, start as int).map_values(record)
                == before + histogram_records(view, global, timestamp),
        decreases n - start,
    {
        let end = find_run_end(entries, start);
        let ghost so_far = metrics_view(out@);
        let mut values: Vec<Vec<u64>> = Vec::new();
        let mut k: usize = start;
        while k < end
            invariant
                start <= k <= end <= entries.len(),
                view == buffer_entries_view(entries@),
                buffers_view(values@) == entry_values(view.subrange(start as int, k as int)),
            decreases end - k,
        {
            let buffer = entries[k].1.clone();
            assert(buffer@ =~= entries[k as int].1@);
            let ghost taken = buffers_view(values@);
            values.push(buffer);
            assert(buffers_view(values@) =~= taken.push(buffer@));
            assert(view[k as int].1 == entries[k as int].1@);
            assert(taken.push(buffer@) =~= entry_values(view.subrange(start as int, k + 1)));
            k += 1;
        }
        let key = entries[start].0.clone();
        let made = DataDogMetric::from_histogram(key, values, global_tags, timestamp);
        out.push(made);
        proof {
            assert(entry_keys(view) =~= entries@.map_values(|e: (MetricKey, Vec<u64>)| e.0@));
            let group = (view[start as int].0, entry_values(view.subrange(start as int, end as int)));
            assert(runs_from(view, start as int) == seq![group] + runs_from(view, end as int));
            assert(metrics_view(out@) =~= so_far.push(record(group)));
            assert(so_far.push(record(group)) + runs_from(view, end as int).map_values(record)
                =~= so_far + runs_from(view, start as int).map_values(record));
        }
        start = end;
    }
    assert(runs_from(view, n as int) =~= Seq::<(MetricKeyView, Seq<Seq<u64>>)>::empty());
    assert(metrics_view(out@) =~= metrics_view(out@) + runs_from(
        view,
        n as int,
    ).map_values(record));
}

/// The records of a snapshot captured at `timestamp`
pub fn snapshot_metrics(snapshot: &RegistrySnapshot, global_tags: &[Label], timestamp: i64) -> (r:
    Vec<DataDogMetric>)
    ensures
        metrics_view(r@) == snapshot_records(snapshot@, labels_view(global_tags@), timestamp),
{
    let mut out: Vec<DataDogMetric> = Vec::new();
    assert(metrics_view(out@) =~= Seq::<DataDogMetricView>::empty());
    push_scalar_records(&snapshot.counters, false, global_tags, timestamp, &mut out);
    push_scalar_records(&snapshot.gauges, true, global_tags, timestamp, &mut out);
    push_histogram_records(&snapshot.histograms, global_tags, timestamp, &mut out);
    out
}

/// Every entry as a group of its own
pub open spec fn alone<V>(entries: Seq<(MetricKeyView, V)>) -> Seq<(MetricKeyView, Seq<V>)> {
    entries.map_values(|e: (MetricKeyView, V)| (e.0, seq![e.1]))
}

/// Whether no entry has the key of the entry behind it
pub open spec fn distinct_neighbours<V>(entries: Seq<(MetricKeyView, V)>) -> bool {
    forall|i: int, j: int|
        0 <= i && j == i + 1 && j < entries.len() ==> (#[trigger] entries[i]).0 != (
        #[trigger] entries[j]).0
}

/// Where no entry has the key of its neighbour, grouping joins nothing:
/// every entry is a group of its own, so a counter or a gauge read once
/// gives a record of exactly one point.
pub proof fn lemma_distinct_neighbours_group_alone<V>(entries: Seq<(MetricKeyView, V)>)
    requires
        distinct_neighbours(entries),
    ensures
        group_runs(entries) == alone(entries),
{
    lemma_runs_alone_from(entries, 0);
    assert(entries.subrange(0, entries.len() as int) =~= entries);
}

proof fn lemma_runs_alone_from<V>(entries: Seq<(MetricKeyView, V)>, start: int)
    requires
        0 <= start <= entries.len(),
        distinct_neighbours(entries),
    ensures
        runs_from(entries, start) == alone(entries.subrange(start, entries.len() as int)),
    decreases entries.len() - start,
{
    let rest = entries.subrange(start, entries.len() as int);
    if start == entries.len() {
        assert(runs_from(entries, start) =~= alone(rest));
    } else {
        let keys = entry_keys(entries);
        assert(start + 1 < keys.len() ==> keys[start + 1] == entries[start + 1].0);
        assert(keys[start] == entries[start].0);
        assert(run_end(keys, start) == start + 1);
        lemma_runs_alone_from(entries, start + 1);
        assert(entry_values(entries.subrange(start, start + 1)) =~= seq![entries[start].1]);
        assert(seq![(entries[start].0, seq![entries[start].1])] + alone(
            entries.subrange(start + 1, entries.len() as int),
        ) =~= alone(rest));
    }
}

} // verus!
