[package]
name = "concord"
version = "0.1.0"
edition = "2021"
publish = false

[dependencies]
serde = { version = "=1.0.229", features = ["derive"] }
serde_json = "=1.0.154"
toml = "=0.8.23"
rand = "=0.8.8"
uuid = { version = "=1.29.0", features = ["v4"] }
base64 = "=0.22.1"
sys-locale = "=0.3.2"
iana-time-zone = "=0.1.65"
reqwest = { version = "0.12", default-features = false }
