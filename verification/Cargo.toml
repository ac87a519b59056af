[package]
name = "shared_core"
version = "0.1.0"
edition = "2021"
publish = false

[dependencies]
rand = "=0.8.8"
blake3 = "=1.8.7"
ed25519-dalek = { version = "=2.2.0", features = ["rand_core"] }
ring = "=0.17.14"
serde = { version = "1", features = ["derive"] }
serde_json = "1"
toml = "0.8"
thiserror = "1"
async-trait = "0.1"
tokio = { version = "1", features = ["sync", "time", "rt", "macros"] }
tracing = "0.1"
tracing-appender = "0.2"
tracing-subscriber = { version = "0.3", features = ["env-filter", "json"] }
metrics = "*"
metrics-exporter-prometheus = "*"
zeroize = { version = "1", features = ["zeroize_derive"] }
bincode = "1"
config = "*"
