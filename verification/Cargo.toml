[package]
name = "pms5003"
version = "0.1.0"
edition = "2021"
publish = false

[dependencies]
actix = "0.10"
actix-rt = "1"
actix-web = "3"
anyhow = "1"
bincode = "1.3"
env_logger = "0.8"
log = "0.4"
serde = { version = "1", features = ["derive"] }
serde_json = "1"
serialport = { version = "3", default-features = false }
tokio = { version = "0.2", features = ["full"] }
