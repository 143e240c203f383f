[package]
name = "web_tools"
version = "0.1.0"
edition = "2021"
publish = false

[dependencies]
axum = "=0.8.9"
dotenvy = "=0.15.7"
futures = "=0.3.34"
headless_chrome = "=0.9.0"
html2md = "=0.2.17"
reqwest = { version = "=0.13.5", default-features = false }
rmcp = { version = "=3.5.1", features = ["transport-streamable-http-server"] }
schemars = "=1.2.2"
serde = { version = "=1.0.229", features = ["derive"] }
serde_json = "=1.0.151"
tokio = { version = "=1.53.2", features = ["full"] }
tracing = "=0.1.44"
