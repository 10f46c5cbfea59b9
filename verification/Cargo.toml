[package]
name = "koom"
version = "0.1.0"
edition = "2021"
publish = false

[dependencies]
anyhow = "=1.0.104"
chrono = "=0.4.45"
cpal = "=0.15.3"
dirs = "=6.0.0"
env_logger = "=0.11.11"
hound = "=3.5.1"
log = "=0.4.35"
nokhwa = { version = "=0.10.11", features = ["input-native"] }
serde = { version = "=1.0.229", features = ["derive"] }
thiserror = "=2.0.21"
tokio = { version = "=1.54.1", features = ["rt-multi-thread", "sync", "time", "macros"] }
uuid = { version = "=1.29.0", features = ["v4"] }
xcap = "=0.9.8"
