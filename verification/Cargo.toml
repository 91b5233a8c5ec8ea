[package]
name = "waydim"
version = "0.1.0"
edition = "2021"
publish = false

[dependencies]
anyhow = "1"
clap = { version = "4", features = ["derive"] }
color-eyre = "*"
dbus = "*"
fs-err = "*"
futures = "*"
opentelemetry = "*"
opentelemetry-appender-tracing = "*"
opentelemetry-otlp = { version = "*", features = ["grpc-tonic", "metrics", "logs", "trace"] }
opentelemetry_sdk = { version = "*", features = ["metrics", "logs", "trace", "rt-tokio"] }
serde = { version = "1", features = ["derive"] }
tarpc = { version = "*", features = ["full"] }
thiserror = "*"
tokio = { version = "1", features = ["full"] }
tracing = "*"
tracing-opentelemetry = "*"
tracing-subscriber = { version = "*", features = ["env-filter"] }
