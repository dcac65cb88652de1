[package]
name = "async_ucx"
version = "0.2.0"
edition = "2021"
publish = false

[dependencies]
bytes = "1"
futures = "0.3"
futures-lite = "2"
pin-project = "1"
tokio = { version = "1", features = ["rt", "net", "io-util", "sync"] }
