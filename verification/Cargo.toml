[package]
name = "backend"
version = "0.1.0"
edition = "2021"
publish = false

[dependencies]
axum = "0.7"
tokio = { version = "1", features = ["full"] }
tracing-subscriber = "0.3"

[dev-dependencies]
serde_json = "1"
