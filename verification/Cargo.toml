[package]
name = "hypothesis"
version = "0.1.0"
edition = "2021"
publish = false

[dependencies]
serde_json = "=1.0.151"
chrono = "=0.4.45"
reqwest = { version = "=0.12.28", default-features = false }

[dev-dependencies]
url = "2"
