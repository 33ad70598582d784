[package]
name = "req_packager"
version = "0.1.0"
edition = "2021"
publish = false

[dependencies]
serde_json = "*"
tokio = { version = "*", features = ["rt", "sync", "macros", "time"] }
tokio-stream = "*"
prost-types = "*"
