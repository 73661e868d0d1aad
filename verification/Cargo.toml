[package]
name = "pkz"
version = "0.1.0"
edition = "2021"
publish = false

[dependencies]
uuid = { version = "1", features = ["v4"] }
anyhow = "1"
async_zip = "=0.0.9"
serde = "1"
serde_derive = "1"
serde_json = "1"
tokio = { version = "1", features = ["io-util"] }
