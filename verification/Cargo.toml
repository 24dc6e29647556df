[package]
name = "jitsi_openid"
version = "2.1.0"
edition = "2021"
publish = false

[dependencies]
anyhow = "1"
axum = "0.8"
axum-extra = { version = "0.10", features = ["cookie"] }
jsonwebtoken = "9"
openidconnect = "4"
reqwest = { version = "0.12", default-features = false, features = ["rustls-tls", "json"] }
serde = { version = "1", features = ["derive"] }
serde_json = { version = "1", features = ["raw_value"] }
time = "0.3"
tokio = { version = "1", features = ["sync"] }
tracing = "0.1"
url = "2"
uuid = { version = "1", features = ["v4"] }
