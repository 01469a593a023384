[package]
name = "webhook_dispatch"
version = "0.1.0"
edition = "2021"
publish = false

[dependencies]
anyhow = "*"
serde = { version = "*", features = ["derive"] }
serde_json = "*"
thiserror = "*"
tracing = "*"
tracing-subscriber = { version = "*", features = ["env-filter", "json"] }
