[package]
name = "metrics_datadog_exporter"
version = "0.1.0"
edition = "2021"
publish = false

[dependencies]
chrono = "0.4"
flate2 = "1"
futures = "0.3"
itertools = "0.10"
log = "0.4"
metrics = "0.21"
metrics-util = "0.15"
reqwest = { version = "0.11", features = ["blocking", "json"] }
serde = { version = "1", features = ["derive"] }
serde_json = "1"
serde_with = "2"
thiserror = "1"
tokio = { version = "1", features = ["rt", "rt-multi-thread", "macros", "time"] }
tokio_schedule = "0.3"
tracing = "0.1"
