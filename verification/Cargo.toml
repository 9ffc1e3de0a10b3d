[package]
name = "healthcheck_metrics"
version = "0.1.0"
edition = "2021"
publish = false

[dependencies]
axum = "0.8"
once_cell = "1"
opentelemetry = "0.29"
opentelemetry-otlp = { version = "0.29", default-features = false, features = ["grpc-tonic", "metrics"] }
opentelemetry-prometheus = "0.29"
opentelemetry-semantic-conventions = { version = "0.29", features = ["semconv_experimental"] }
opentelemetry_sdk = "0.29"
prometheus = "0.14"
serde_json = "1"
sysinfo = "0.30"
tokio = { version = "1", features = ["full"] }
tracing = "0.1"
tracing-subscriber = "0.3"
