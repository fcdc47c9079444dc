[package]
name = "request_tracing"
version = "0.1.0"
edition = "2021"
publish = false

[dependencies]
axum = "=0.8.9"
opentelemetry = "=0.32.0"
opentelemetry_sdk = "=0.32.1"
sentry = { version = "=0.49.3", default-features = false, features = ["opentelemetry"] }
serde = { version = "=1.0.229", features = ["derive"] }
serde_json = "=1.0.154"
thiserror = "=2.0.21"
tokio = { version = "=1.54.1", features = ["rt-multi-thread", "net", "time"] }
