[package]
name = "node_stats_service"
version = "0.1.0"
edition = "2021"
publish = false

[dependencies]
anyhow = "1"
env_logger = "0.7"
humantime-serde = "1"
log = "0.4"
prost = "0.6"
rand = "0.7"
serde = { version = "1", features = ["derive"] }
serde_yaml = "0.8"
tokio = { version = "0.2", features = ["macros", "rt-threaded", "sync", "time", "fs", "stream"] }
tonic = { version = "0.3", features = ["transport", "tls"] }
