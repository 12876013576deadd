[package]
name = "jetstream_proto"
version = "0.1.0"
edition = "2021"
publish = false

[dependencies]
opentelemetry = "=0.33.1"
opentelemetry_sdk = "=0.33.1"
sha2 = "=0.10.9"
serde = { version = "=1.0.229", features = ["derive"] }
serde_json = "=1.0.154"
serde_yaml = "=0.9.34"
thiserror = "=1.0.69"
anyhow = "=1.0.104"
sled = "=0.34.7"
bincode = "=1.3.3"
tokio = { version = "=1.54.1", features = ["rt-multi-thread", "macros", "sync", "time", "net", "process", "io-util"] }
tracing = "=0.1.44"
tracing-subscriber = { version = "=0.3.23", features = ["env-filter", "json"] }
async-trait = "=0.1.92"
if-addrs = "*"
