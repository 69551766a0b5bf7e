[package]
name = "oss_gateway"
version = "0.1.0"
edition = "2021"
publish = false

[dependencies]
chrono = "=0.4.45"
mime_guess = "=2.0.5"
rust-s3 = "=0.34.0"
serde = { version = "=1.0.229", features = ["derive"] }
tokio = { version = "=1.54.1", features = ["time"] }
dirs = "=7.0.0"
