[package]
name = "vaccine_slots"
version = "0.1.0"
edition = "2021"
publish = false

[dependencies]
anyhow = "1"
dashmap = "4"
futures = "0.3"
opentelemetry = { version = "0.14", features = ["rt-tokio"] }
opentelemetry-otlp = { version = "0.7", features = ["tls"] }
reqwest = { version = "0.11", features = ["json"] }
serde = { version = "1", features = ["derive"] }
tokio = { version = "1", features = ["full"] }
tonic = { version = "0.4", features = ["tls"] }
tracing = "0.1"
tracing-futures = "0.2"
tracing-opentelemetry = "0.13"
tracing-subscriber = "0.2"
warp = "0.3"
