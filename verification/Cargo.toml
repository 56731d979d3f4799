[package]
name = "daily_knowledge"
version = "0.1.0"
edition = "2021"
publish = false

[dependencies]
rand = "0.9"
reqwest = "0.12"
serde = { version = "1", features = ["derive"] }
serde_json = "1"
tokio = { version = "1", features = ["full"] }
tokio-cron-scheduler = "*"
toml = "0.8"
