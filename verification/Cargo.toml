[package]
name = "kentik_api"
version = "0.1.0"
edition = "2021"
publish = false

[dependencies]
backoff = "*"
crossbeam-channel = "*"
serde = { version = "*", features = ["derive"] }
serde_bytes = "*"
rmp-serde = "*"
bytes = "*"
reqwest = { version = "*", default-features = false, features = ["blocking", "json"] }
tokio = { version = "*", features = ["rt-multi-thread", "time"] }
log = "*"
