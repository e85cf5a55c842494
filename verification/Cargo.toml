[package]
name = "ci_monitor"
version = "0.1.0"
edition = "2021"
publish = false

[dependencies]
anyhow = "1"
clap = { version = "4", features = ["derive"] }
dashmap = "6"
env_logger = "0.11"
log = "0.4"
reqwest = { version = "0.12", features = ["json"] }
scopeguard = "1"
serde = { version = "1", features = ["derive"] }
serde_json = "1"
tokio = { version = "1", features = ["full"] }
