[package]
name = "trade_common_rs"
version = "0.1.0"
edition = "2021"
publish = false

[dependencies]
axum = "*"
config = "*"
serde = { version = "*", features = ["derive"] }
serde_json = "*"
tracing = "*"
tracing-subscriber = "*"
