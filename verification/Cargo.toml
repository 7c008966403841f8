[package]
name = "turbo_tracing"
version = "0.1.0"
edition = "2021"
publish = false

[dependencies]
chrono = "0.4"
clap = { version = "4", features = ["derive"] }
opentelemetry = "0.22"
opentelemetry-otlp = "0.15"
opentelemetry_sdk = "0.22"
owo-colors = "3"
pprof = { version = "0.13", features = ["prost-codec"] }
prost = "0.12"
serde = { version = "1", features = ["derive"] }
tracing = "0.1"
tracing-appender = "0.2"
tracing-chrome = "0.7"
tracing-opentelemetry = "0.23"
tracing-subscriber = { version = "0.3", features = ["env-filter"] }
