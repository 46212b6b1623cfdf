[package]
name = "benchmarks"
version = "0.1.0"
edition = "2021"
publish = false

[dependencies]
chrono = "*"
tokio = { version = "*", features = ["rt", "net", "io-util", "time"] }
serde_json = "*"
once_cell = "*"
rustc_version_runtime = "*"
