[package]
name = "transform_chain"
version = "0.1.0"
edition = "2021"
publish = false

[dependencies]
anyhow = "1"
futures = { version = "0.3", default-features = false, features = ["std"] }
metrics = "0.21"
tokio = { version = "1", features = ["rt", "sync", "time"] }
tracing = "0.1"
