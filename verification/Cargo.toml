[package]
name = "rust_live"
version = "0.1.0"
edition = "2021"
publish = false

[dependencies]
anyhow = "1"
blake3 = "1"
bytes = "1"
futures = "0.3"
hex = "0.4"
prost = "0.13"
rayon = "1"
reqwest = { version = "0.12", default-features = false, features = ["blocking"] }
serde_json = "1"
sled = "0.34"
tokio = { version = "1", features = ["full"] }
tokio-stream = "0.1"
tokio-util = { version = "0.7", features = ["codec"] }
tonic = "0.12"
tracing = "0.1"
tracing-subscriber = { version = "0.3", features = ["env-filter"] }
