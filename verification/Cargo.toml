[package]
name = "rust_api"
version = "0.1.0"
edition = "2021"
publish = false

[dependencies]
ort = { version = "=2.0.0-rc.13", default-features = false, features = ["load-dynamic"] }
ndarray = "=0.15.6"
serde = { version = "=1.0.229", features = ["derive"] }
serde_json = "=1.0.151"
anyhow = "=1.0.104"
axum = "=0.7.9"
tokio = { version = "=1.53.2", features = ["macros", "rt-multi-thread", "net"] }
tower-http = { version = "=0.5.2", features = ["cors"] }
tracing-subscriber = "=0.3.23"
