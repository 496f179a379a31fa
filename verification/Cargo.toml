[package]
name = "tnbot_core"
version = "0.1.0"
edition = "2021"
publish = false

[dependencies]
aes-gcm = "0.10"
base64 = "0.22"
chrono = "0.4"
hex = "0.4"
rand = "*"
sha2 = "0.10"
urlencoding = "2"
uuid = { version = "1", features = ["v4"] }
serde = { version = "1", features = ["derive"] }
serde_json = "1"
tokio = { version = "1", features = ["full"] }
tracing = "0.1"
anyhow = "1"
thiserror = "2"
async-trait = "0.1"
futures-util = "0.3"
tokio-tungstenite = "*"
zstd = "0.13"
maud = "*"
axum = "*"
