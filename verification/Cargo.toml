[package]
name = "health_mock"
version = "0.1.0"
edition = "2021"
publish = false

[dependencies]
tokio = { version = "*", features = ["macros", "rt-multi-thread", "sync", "time"] }
tokio-stream = "*"
tonic = "*"
tonic-health = "*"
tracing = "*"
tracing-subscriber = "*"
