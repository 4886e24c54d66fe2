[package]
name = "asynclog"
version = "0.1.0"
edition = "2021"
publish = false

[dependencies]
chrono = "0.4"
flume = "*"
futures = "0.3"
once_cell = "1"
serde = { version = "1", features = ["derive"] }
serde_json = "1"
tokio = { version = "1", features = ["rt", "io-std", "io-util"] }
