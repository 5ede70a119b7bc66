use metrics_datadog_exporter::data::{Label, MetricKey};
use metrics_datadog_exporter::{
    DataDogBuilder, DataDogMetric, DataDogMetricType, DataDogMetricValue,
};
use std::collections::HashMap;

fn key(name: &str, labels: &[(&str, &str)]) -> MetricKey {
    MetricKey::new(
        name.to_string(),
        labels
            .iter()
            .map(|(k, v)| Label::new(k.to_string(), v.to_string()))
            .collect(),
    )
}

#[test]
fn collect_test() {
    let metrics = DataDogBuilder::default().build();
    metrics
        .recorder
        .register_counter(&key("this.counter", &[("tag2", "value2")]))
        .increment(123);
    metrics
        .recorder
        .register_gauge(&key("this.gauge", &[("tag3", "value3")]))
        .set(234.0);
    metrics
        .recorder
        .register_histogram(&key("this.histogram", &[("tag4", "value5")]))
        .record(345.0);
    metrics
        .recorder
        .register_histogram(&key("this.histogram", &[("tag4", "value5")]))
        .record(456.0);
    let collected = metrics
        .handle
        .collect(1_700_000_000)
        .into_iter()
        .map(|m| (m.metric.to_string(), m))
        .collect::<HashMap<String, DataDogMetric>>();
    assert_eq!(collected.len(), 3);
    let counter = collected.get("this.counter").unwrap();
    assert_eq!(counter.metric_type, DataDogMetricType::Count);
    assert_eq!(counter.tags, vec!["tag2:value2".to_string()]);
    assert_eq!(counter.points, vec![DataDogMetricValue::Unsigned(123)]);
    let histogram = collected.get("this.histogram").unwrap();
    assert_eq!(histogram.metric_type, DataDogMetricType::Histogram);
    assert_eq!(histogram.points.len(), 2);
}
