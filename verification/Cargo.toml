[package]
name = "opensearch_sdk_rs"
version = "0.1.0"
edition = "2021"
publish = false

[dependencies]
semver = "1"
serde = { version = "1", features = ["derive"] }
serde_json = "1"
tokio = { version = "1", features = ["rt-multi-thread", "net", "signal", "time", "io-util", "sync", "macros"] }
rand = "0.8"
tracing = "0.1"
async-trait = "0.1"
