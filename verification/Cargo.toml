[package]
name = "datadog-opentelemetry"
version = "0.1.0"
edition = "2021"
publish = false

[dependencies]
hashbrown = "=0.15.5"
foldhash = "=0.1.5"
opentelemetry = "=0.31.0"
opentelemetry_sdk = { version = "=0.31.0", features = ["trace"] }
opentelemetry-semantic-conventions = { version = "=0.31.0", features = ["semconv_experimental"] }
custom-labels = "=0.4.6"
libdd-data-pipeline = "=2.0.1"
