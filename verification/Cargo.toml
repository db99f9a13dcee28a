[package]
name = "order_core"
version = "0.1.0"
edition = "2021"
publish = false

[dependencies]
jwt-simple = { version = "=0.12.17", default-features = false, features = ["pure-rust"] }
chrono = "=0.4.45"
serde = { version = "=1.0.229", features = ["derive"] }
serde_json = "=1.0.151"
axum = "=0.8.9"
tokio = { version = "=1.53.2", features = ["full"] }
tower-cookies = "=0.11.0"
