[package]
name = "napmap"
version = "0.1.0"
edition = "2021"
publish = false

[dependencies]
tokio = { version = "*", features = ["sync"] }
tracing = "*"
