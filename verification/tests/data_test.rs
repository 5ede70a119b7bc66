use metrics_datadog_exporter::data::{
    clone_labels, clone_strings, DataDogMetricLine, DataDogSeries, Label, MetricKey, SERIES_POINTS,
};
use metrics_datadog_exporter::{DataDogMetric, DataDogMetricType, DataDogMetricValue};

fn label(key: &str, value: &str) -> Label {
    Label::new(key.to_string(), value.to_string())
}

fn key(name: &str, labels: &[(&str, &str)]) -> MetricKey {
    MetricKey::new(
        name.to_string(),
        labels.iter().map(|(k, v)| label(k, v)).collect(),
    )
}

fn float(value: f64) -> DataDogMetricValue {
    DataDogMetricValue::Float(value.to_bits())
}

#[test]
fn label_renders_as_key_colon_value() {
    assert_eq!(label("env", "prod").tag(), "env:prod");
    assert_eq!(label("", "").tag(), ":");
    assert_eq!(label("a:b", "c").tag(), "a:b:c");
    assert_eq!(label("clé", "värde").tag(), "clé:värde");
}

#[test]
fn label_new_keeps_both_parts() {
    let l = label("route", "/x");
    assert_eq!(l.key, "route");
    assert_eq!(l.value, "/x");
    assert_eq!(l.clone(), l);
}

#[test]
fn tag_ordering_global_tags_come_first() {
    let m = DataDogMetric::from_metric_value(
        DataDogMetricType::Count,
        key("hits", &[("route", "/x")]),
        vec![DataDogMetricValue::Unsigned(1)],
        &[label("env", "prod")],
        17,
    );
    assert_eq!(m.tags, vec!["env:prod".to_string(), "route:/x".to_string()]);
}

#[test]
fn tag_ordering_keeps_declaration_order() {
    let m = DataDogMetric::from_metric_value(
        DataDogMetricType::Gauge,
        key("depth", &[("z", "1"), ("a", "2"), ("z", "3")]),
        vec![],
        &[label("g2", "x"), label("g1", "y")],
        0,
    );
    assert_eq!(
        m.tags,
        vec![
            "g2:x".to_string(),
            "g1:y".to_string(),
            "z:1".to_string(),
            "a:2".to_string(),
            "z:3".to_string()
        ]
    );
}

#[test]
fn from_metric_value_builds_the_record_exactly() {
    let m = DataDogMetric::from_metric_value(
        DataDogMetricType::Histogram,
        key("latency_ms", &[]),
        vec![float(10.0), float(20.0)],
        &[],
        1_700_000_000,
    );
    assert_eq!(
        m,
        DataDogMetric {
            metric: "latency_ms".to_string(),
            metric_type: DataDogMetricType::Histogram,
            points: vec![float(10.0), float(20.0)],
            timestamp: 1_700_000_000,
            tags: vec![],
        }
    );
}

#[test]
fn from_metric_value_accepts_extreme_timestamps() {
    let low = DataDogMetric::from_metric_value(
        DataDogMetricType::Count,
        key("a", &[]),
        vec![],
        &[],
        i64::MIN,
    );
    let high = DataDogMetric::from_metric_value(
        DataDogMetricType::Count,
        key("a", &[]),
        vec![],
        &[],
        i64::MAX,
    );
    assert_eq!(low.timestamp, i64::MIN);
    assert_eq!(high.timestamp, i64::MAX);
}

#[test]
fn from_counter_makes_unsigned_points() {
    let m = DataDogMetric::from_counter(
        key("this.counter", &[("tag2", "value2")]),
        vec![123, 0, u64::MAX],
        &[label("tag1", "value1")],
        1_700_000_001,
    );
    assert_eq!(m.timestamp, 1_700_000_001);
    assert_eq!(m.metric, "this.counter");
    assert_eq!(m.metric_type, DataDogMetricType::Count);
    assert_eq!(
        m.points,
        vec![
            DataDogMetricValue::Unsigned(123),
            DataDogMetricValue::Unsigned(0),
            DataDogMetricValue::Unsigned(u64::MAX)
        ]
    );
    assert_eq!(m.tags, vec!["tag1:value1".to_string(), "tag2:value2".to_string()]);
}

#[test]
fn from_gauge_makes_float_points() {
    let m = DataDogMetric::from_gauge(
        key("this.gauge", &[("tag3", "value3")]),
        vec![234.0f64.to_bits()],
        &[],
        -5,
    );
    assert_eq!(m.timestamp, -5);
    assert_eq!(m.metric, "this.gauge");
    assert_eq!(m.metric_type, DataDogMetricType::Gauge);
    assert_eq!(m.points, vec![float(234.0)]);
    assert_eq!(m.tags, vec!["tag3:value3".to_string()]);
}

#[test]
fn from_histogram_flattens_the_buffers_in_order() {
    let m = DataDogMetric::from_histogram(
        key("this.histogram", &[("tag4", "value5")]),
        vec![
            vec![345.0f64.to_bits(), 456.0f64.to_bits()],
            vec![],
            vec![1.5f64.to_bits()],
        ],
        &[],
        77,
    );
    assert_eq!(m.timestamp, 77);
    assert_eq!(m.metric_type, DataDogMetricType::Histogram);
    assert_eq!(m.points, vec![float(345.0), float(456.0), float(1.5)]);
}

#[test]
fn from_histogram_without_buffers_has_no_points() {
    let m = DataDogMetric::from_histogram(key("h", &[]), vec![], &[], 0);
    assert!(m.points.is_empty());
    let m = DataDogMetric::from_histogram(key("h", &[]), vec![vec![], vec![]], &[], 0);
    assert!(m.points.is_empty());
}

#[test]
fn float_values_compare_by_bit_pattern() {
    assert_eq!(float(500.0), float(500.0));
    assert_ne!(float(0.0), float(-0.0));
    assert_eq!(float(f64::NAN), float(f64::NAN));
    assert_ne!(float(1.0), DataDogMetricValue::Unsigned(1.0f64.to_bits()));
}

#[test]
fn to_metric_lines_gives_one_line_per_point() {
    let m = DataDogMetric {
        metric: "latency_ms".to_string(),
        metric_type: DataDogMetricType::Histogram,
        points: vec![float(10.0), float(20.0), float(30.0)],
        timestamp: 42,
        tags: vec!["env:prod".to_string()],
    };
    let lines = m.to_metric_lines();
    assert_eq!(
        lines,
        vec![
            DataDogMetricLine {
                name: "latency_ms".to_string(),
                value: float(10.0),
                timestamp: 42,
                tags: vec!["env:prod".to_string()],
            },
            DataDogMetricLine {
                name: "latency_ms".to_string(),
                value: float(20.0),
                timestamp: 42,
                tags: vec!["env:prod".to_string()],
            },
            DataDogMetricLine {
                name: "latency_ms".to_string(),
                value: float(30.0),
                timestamp: 42,
                tags: vec!["env:prod".to_string()],
            },
        ]
    );
}

#[test]
fn to_metric_lines_of_no_points_is_empty() {
    let m = DataDogMetric {
        metric: "m".to_string(),
        metric_type: DataDogMetricType::Count,
        points: vec![],
        timestamp: 1,
        tags: vec![],
    };
    assert!(m.to_metric_lines().is_empty());
}

fn metric_with_points(n: u64) -> DataDogMetric {
    DataDogMetric {
        metric: "metric".to_string(),
        metric_type: DataDogMetricType::Histogram,
        points: (0..n).map(|i| float(i as f64)).collect(),
        timestamp: 7,
        tags: vec!["a:b".to_string()],
    }
}

#[test]
fn series_hold_three_points_each() {
    assert_eq!(SERIES_POINTS, 3);
    let series = DataDogSeries::new(metric_with_points(10));
    assert_eq!(series.len(), 4);
    let sizes: Vec<usize> = series.iter().map(|s| s.points.len()).collect();
    assert_eq!(sizes, vec![3, 3, 3, 1]);
    assert_eq!(
        series[1],
        DataDogSeries {
            interval: None,
            metric: "metric".to_string(),
            points: vec![(7, float(3.0)), (7, float(4.0)), (7, float(5.0))],
            tags: vec!["a:b".to_string()],
            metric_type: DataDogMetricType::Histogram,
        }
    );
    assert_eq!(series[3].points, vec![(7, float(9.0))]);
}

#[test]
fn series_counts_at_the_edges() {
    let counts: Vec<usize> = [0u64, 1, 2, 3, 4, 5, 6, 7]
        .iter()
        .map(|n| DataDogSeries::new(metric_with_points(*n)).len())
        .collect();
    assert_eq!(counts, vec![0, 1, 1, 1, 2, 2, 2, 3]);
}

#[test]
fn series_keep_every_point_once_and_in_order() {
    for n in 0..20 {
        let metric = metric_with_points(n);
        let expected = metric.points.clone();
        let series = DataDogSeries::new(metric);
        let points: Vec<DataDogMetricValue> = series
            .iter()
            .flat_map(|s| s.points.iter().map(|p| p.1))
            .collect();
        assert_eq!(points, expected);
        assert!(series.iter().all(|s| !s.points.is_empty() && s.points.len() <= 3));
        assert!(series.iter().all(|s| s.points.iter().all(|p| p.0 == 7)));
    }
}

#[test]
fn metric_keys_are_the_same_when_name_and_labels_match() {
    let a = key("m", &[("k", "v"), ("k2", "v2")]);
    assert!(a.same(&key("m", &[("k", "v"), ("k2", "v2")])));
    assert!(a.same(&a.clone()));
    assert!(!a.same(&key("n", &[("k", "v"), ("k2", "v2")])));
    assert!(!a.same(&key("m", &[("k", "v")])));
    assert!(!a.same(&key("m", &[("k2", "v2"), ("k", "v")])));
    assert!(!a.same(&key("m", &[("k", "v"), ("k2", "other")])));
    assert!(!a.same(&key("m", &[("k", "v"), ("other", "v2")])));
    assert!(key("", &[]).same(&key("", &[])));
}

#[test]
fn clones_are_equal_to_what_they_copy() {
    let m = metric_with_points(4);
    assert_eq!(m.clone(), m);
    let k = key("m", &[("k", "v")]);
    assert_eq!(k.clone(), k);
    let strings = vec!["a".to_string(), "".to_string(), "b:c".to_string()];
    assert_eq!(clone_strings(&strings), strings);
    let labels = vec![label("a", "b"), label("c", "d")];
    assert_eq!(clone_labels(&labels), labels);
}
