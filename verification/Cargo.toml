[package]
name = "circuits"
version = "0.1.0"
edition = "2021"
publish = false

[dependencies]
anyhow = "1"
flume = "0.11"
futures = "0.3"
tokio = { version = "1", features = ["rt", "rt-multi-thread", "time"] }
