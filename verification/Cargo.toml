[package]
name = "rust_ai_ready_stack"
version = "0.1.0"
edition = "2021"
publish = false

[dependencies]
anyhow = "1"
async-openai = "0.29"
async-trait = "0.1"
axum = "0.8"
axum-cookie = "*"
chrono = "0.4"
dotenv = "0.15"
futures = "0.3"
jsonwebtoken = "9"
mongodb = "3"
reqwest = { version = "0.12", default-features = false, features = ["json", "rustls-tls"] }
serde = { version = "1", features = ["derive"] }
serde_json = { version = "1", features = ["raw_value"] }
thiserror = "2"
tokio = { version = "1", features = ["full"] }
tower-http = { version = "0.6", features = ["cors", "catch-panic"] }
uuid = { version = "1", features = ["v4"] }
