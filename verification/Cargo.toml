[package]
name = "brkrs"
version = "0.1.0"
edition = "2021"
publish = false

[dependencies]
rand = "=0.10.3"
serde = { version = "=1.0.229", features = ["derive"] }
ron = "=0.11.0"
serde_json = "=1.0.154"
tracing = "=0.1.44"
