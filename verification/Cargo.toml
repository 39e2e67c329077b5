[package]
name = "crates_io"
version = "0.1.0"
edition = "2021"
publish = false

[dependencies]
chrono = "0.4"
base64 = "0.22"
p256 = { version = "0.13", features = ["ecdsa", "pem"] }
bigdecimal = "0.4"
serde = { version = "1", features = ["derive"] }
serde_json = "1"
http = "1"
axum = "0.8"
tokio = { version = "1", features = ["sync", "rt", "macros"] }
reqwest = { version = "0.12", default-features = false, features = ["json", "rustls-tls"] }
async-trait = "0.1"
anyhow = "1"
