[package]
name = "bybit_notifier"
version = "0.1.0"
edition = "2021"
publish = false

[dependencies]
async-trait = "0.1"
chrono = "0.4"
dotenv = "0.15"
hex = "0.4"
hmac = "0.12"
reqwest = { version = "0.12", features = ["json"] }
serde_json = "1"
sha2 = "0.10"
tokio = { version = "1", features = ["full"] }
tokio-cron-scheduler = "*"
