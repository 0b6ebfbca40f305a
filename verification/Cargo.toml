[package]
name = "codex_http_server"
version = "0.1.0"
edition = "2021"
publish = false

[dependencies]
axum = "*"
tokio = { version = "*", features = ["full"] }
serde = { version = "*", features = ["derive"] }
serde_json = "*"
async-stream = "*"
tracing = "*"
tracing-subscriber = "*"
