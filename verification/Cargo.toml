[package]
name = "kruidvat_notification"
version = "0.1.0"
edition = "2021"
publish = false

[dependencies]
chrono = "=0.4.45"
color-eyre = { version = "=0.6.5", default-features = false }
cron = "=0.17.0"
dotenv = "=0.15.0"
reqwest = { version = "=0.12.28", default-features = false, features = ["gzip", "default-tls"] }
scraper = "=0.29.0"
serde_json = "=1.0.154"
surf = "=2.3.2"
tokio = { version = "=1.54.1", features = ["macros", "rt-multi-thread", "time"] }
