[package]
name = "http_pool"
version = "0.1.0"
edition = "2021"
publish = false

[dependencies]
async-channel = "2"
reqwest = "0.12"
tokio = { version = "1", features = ["rt", "rt-multi-thread", "sync", "time"] }

[dev-dependencies]
tokio = { version = "1", features = ["test-util"] }
