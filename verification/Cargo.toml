[package]
name = "axum_otel_honeycomb"
version = "0.1.0"
edition = "2021"
publish = false

[dependencies]
axum = "*"
futures-util = "*"
http = "*"
opentelemetry = "*"
opentelemetry-otlp = { version = "*", features = ["logs"] }
opentelemetry_sdk = "*"
pin-project-lite = "*"
tower = "*"
tracing = "*"
tracing-core = "*"
tracing-opentelemetry = "*"
tracing-subscriber = "*"
