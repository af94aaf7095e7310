[package]
name = "telemetry_core"
version = "0.1.0"
edition = "2021"
publish = false

[dependencies]
actix-web = "*"
tokio = { version = "*", features = ["full"] }
sysinfo = "*"
tracing = "*"
tracing-subscriber = { version = "*", features = ["env-filter"] }
opentelemetry = "*"
opentelemetry_sdk = "*"
opentelemetry-otlp = "*"
opentelemetry-appender-tracing = "*"
