[package]
name = "kiri"
version = "0.1.0"
edition = "2021"
publish = false

[dependencies]
anyhow = "=1.0.104"
url = "=2.5.8"
uuid = { version = "=1.29.0", features = ["v4"] }
serde = { version = "=1.0.229", features = ["derive"] }
serde_json = "=1.0.154"
tempfile = "=3.27.0"
image = { version = "=0.25.10", default-features = false, features = ["png", "jpeg", "webp"] }
sys-locale = "=0.3.2"
dirs = "=7.0.0"
base64 = "=0.22.1"
sha2 = "=0.10.9"
