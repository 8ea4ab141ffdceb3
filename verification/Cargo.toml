[package]
name = "billing"
version = "0.1.0"
edition = "2021"
publish = false

[dependencies]
uuid = { version = "1", features = ["v4"] }
chrono = "0.4"
config = "0.9"
env_logger = "0.6"
failure = "0.1"
futures = "0.1"
log = "0.4"
serde = "1"
serde_derive = "1"
serde_json = "1"
tokio-core = "0.1"
tokio-signal = "0.2"
