[package]
name = "session_daemon"
version = "0.1.0"
edition = "2021"
publish = false

[dependencies]
shellexpand = "*"
tokio = { version = "1", features = ["sync", "time", "signal", "macros", "rt-multi-thread"] }
tracing = "0.1"
