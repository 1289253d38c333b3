[package]
name = "actum"
version = "0.1.0"
edition = "2021"
publish = false

[dependencies]
either = "1"
enum-as-inner = "0.6"
futures = "0.3"
tokio = { version = "1", features = ["full"] }
tokio-util = "0.7"
tracing = "0.1"
