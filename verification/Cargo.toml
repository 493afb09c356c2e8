[package]
name = "stream_timeout"
version = "0.1.0"
edition = "2021"
publish = false

[dependencies]
futures = "*"
pin-project = "*"
thiserror = "*"
tokio = { version = "*", features = ["time"] }
