[package]
name = "anaheim"
version = "0.1.0"
edition = "2021"
publish = false

[dependencies]
anyhow = "1"
async-trait = "0.1"
axum = "0.6"
derive-new = "0.5"
hostname = "0.3"
mockall = "0.11"
opentelemetry = { version = "0.20", features = ["rt-tokio"] }
opentelemetry-otlp = "0.13"
poem = "1.3"
poem-openapi = "2.0"
proc-macro2 = "1"
quote = "1"
secrecy = { version = "0.8", features = ["serde"] }
serde = { version = "1", features = ["derive"] }
structmeta = "0.2"
syn = { version = "2", features = ["full"] }
tokio = { version = "1", features = ["full"] }
tokio-util = "0.7"
tonic = "0.9"
tracing = "0.1"
tracing-opentelemetry = "0.21"
tracing-subscriber = { version = "0.3", features = ["env-filter"] }
