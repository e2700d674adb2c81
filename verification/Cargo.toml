[package]
name = "pubsub_modes"
version = "0.1.0"
edition = "2021"
publish = false

[dependencies]
chrono = "*"
clap = { version = "*", features = ["derive"] }
futures = "*"
redis = { version = "*", features = ["tokio-comp"] }
tokio = { version = "*", features = ["full"] }
tokio-util = "*"
