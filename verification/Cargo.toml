[package]
name = "spqtify"
version = "0.1.0"
edition = "2021"
publish = false

[dependencies]
bytes = "1"
scraper = "*"
serde = { version = "1", features = ["derive"] }
serde_json = "1"
tokio = { version = "1", features = ["full"] }
axum = "0.8"
tower-http = { version = "*", features = ["cors"] }
reqwest = { version = "*", default-features = false, features = ["rustls-tls", "json"] }
futures = "0.3"
thiserror = "*"
anyhow = "1"
dotenvy = "*"
envconfig = "*"
once_cell = "1"
lazy_static = "1"
prometheus = { version = "*", default-features = false }
tracing = "0.1"
posthog-rs = "*"
backblaze-b2-client = "*"
