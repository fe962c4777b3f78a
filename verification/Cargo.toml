[package]
name = "sandbox"
version = "0.1.0"
edition = "2021"
publish = false

[dependencies]
anyhow = "1"
axum = { version = "0.7", features = ["macros"] }
config = { version = "0.14", default-features = false, features = ["yaml"] }
opentelemetry = { version = "0.24", features = ["logs", "metrics", "trace"] }
opentelemetry_sdk = { version = "0.24", features = ["logs", "metrics", "trace", "rt-tokio"] }
opentelemetry-otlp = { version = "0.17", features = ["logs", "metrics", "trace", "grpc-tonic"] }
opentelemetry-appender-tracing = "0.5"
serde = { version = "1", features = ["derive"] }
serde_json = "1"
sqlx = { version = "0.8", default-features = false, features = ["postgres", "runtime-tokio", "macros"] }
tokio = { version = "1", features = ["full"] }
tower = { version = "0.4", features = ["util"] }
tower-http = { version = "0.5", features = ["trace", "request-id", "util"] }
tracing = "0.1"
tracing-opentelemetry = "0.25"
tracing-subscriber = { version = "0.3", features = ["env-filter"] }
uuid = { version = "1", features = ["v4"] }
