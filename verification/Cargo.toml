[package]
name = "codex-retry"
version = "0.1.0"
edition = "2021"
publish = false

[dependencies]
rand = "0.9"
tokio = { version = "1", default-features = false, features = ["time"] }
tracing = "0.1"
