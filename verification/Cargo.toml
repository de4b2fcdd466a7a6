[package]
name = "steamengine_communication"
version = "0.1.0"
edition = "2021"
publish = false

[dependencies]
rkyv = "=0.8.18"
tokio = { version = "=1.54.1", features = ["net", "io-util", "sync", "rt", "rt-multi-thread", "macros"] }
redis = { version = "=1.8.0", features = ["tokio-comp"] }
async-trait = "=0.1.92"
tracing = "=0.1.44"
crossbeam-channel = "0.5"
