[package]
name = "status_monitor"
version = "0.1.0"
edition = "2021"
publish = false

[dependencies]
actix = "0.11"
actix-rt = "2"
async-std = "1"
chrono = { version = "0.4", features = ["serde"] }
env_logger = "0.8"
kafka = { version = "0.8", default-features = false }
log = "0.4"
redis = "0.20"
reqwest = { version = "0.11", default-features = false, features = ["blocking"] }
serde = { version = "1", features = ["derive"] }
serde_json = "1"
uuid = { version = "0.8", features = ["v4"] }
