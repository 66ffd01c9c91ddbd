[package]
name = "rocket_opentelemetry_demo"
version = "0.1.0"
edition = "2021"
publish = false

[dependencies]
hostname = "*"
opentelemetry = "*"
opentelemetry-appender-tracing = "*"
opentelemetry-otlp = { version = "*", features = ["grpc-tonic", "metrics", "logs", "trace"] }
opentelemetry_sdk = "*"
reqwest = { version = "*", default-features = false }
rocket = "*"
tokio = { version = "*", features = ["time"] }
tracing = "*"
tracing-opentelemetry = "*"
tracing-subscriber = { version = "*", features = ["env-filter"] }
