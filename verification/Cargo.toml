[package]
name = "pingora_runtime"
version = "0.1.0"
edition = "2021"
publish = false

[dependencies]
aws-sdk-s3 = { version = "1", default-features = false }
dial9-tokio-telemetry = { version = "0.5", features = ["worker-s3"] }
log = "0.4"
once_cell = "=1.21.4"
rand = "=0.8.8"
serde = { version = "1", features = ["derive"] }
thread_local = "=1.1.10"
tokio = { version = "=1.54.1", features = ["rt-multi-thread", "sync", "time"] }
