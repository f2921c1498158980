[package]
name = "njord"
version = "0.1.0"
edition = "2021"
publish = false

[dependencies]
serde = { version = "1", features = ["derive"] }
serde_json = "1"
tokio = { version = "1", features = ["rt", "time", "sync", "macros"] }
tokio-serial = { version = "5", default-features = false }
sysinfo = "*"
nvml-wrapper = "*"
