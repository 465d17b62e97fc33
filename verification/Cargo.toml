[package]
name = "jetson_flash"
version = "0.1.0"
edition = "2021"
publish = false

[dependencies]
regex = "1"
uuid = { version = "1", features = ["v4"] }
chrono = { version = "0.4", features = ["serde"] }
serde = { version = "1", features = ["derive"] }
serde_json = "1"
anyhow = "1"
log = "0.4"
env_logger = "*"
tokio = { version = "1", features = ["process", "io-util", "rt-multi-thread", "macros", "fs"] }
rusb = "*"
sys-info = "*"
tauri = { version = "2", default-features = false }
