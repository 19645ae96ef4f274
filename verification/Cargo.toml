[package]
name = "hifi-rs"
version = "0.1.0"
edition = "2021"
publish = false

[dependencies]
url = "=2.5.8"
md5 = "=0.7.0"
chrono = { version = "=0.4.45", default-features = false, features = ["alloc", "now"] }
serde = { version = "=1.0.229", features = ["derive"] }
serde_json = "=1.0.154"
base64 = "0.21"
regex = "1"
