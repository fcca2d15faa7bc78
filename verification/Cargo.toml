[package]
name = "gem_rs"
version = "0.1.0"
edition = "2021"
publish = false

[dependencies]
base64 = "=0.23.1"
chrono = "=0.4.45"
dotenv = "=0.15.0"
futures = "=0.3.34"
reqwest = { version = "=0.13.5", default-features = false, features = ["stream", "query"] }
serde_json = "=1.0.151"
sha256 = "=1.6.0"
tokio = { version = "=1.53.2", features = ["sync", "time", "rt", "macros"] }
