[package]
name = "rustok_seo"
version = "0.1.0"
edition = "2021"
publish = false

[dependencies]
serde = { version = "=1.0.229", features = ["derive"] }
serde_json = "=1.0.154"
url = "=2.5.8"
uuid = { version = "=1.29.0", features = ["v4"] }
csv = "=1.4.0"
chrono = { version = "0.4", default-features = false, features = ["clock", "std"] }
