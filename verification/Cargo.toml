[package]
name = "holo_dev"
version = "0.1.0"
edition = "2021"
publish = false

[dependencies]
anyhow = "1"
bson = { version = "2", features = ["chrono-0_4"] }
chrono = { version = "0.4", features = ["serde"] }
dotenvy = "0.15"
encoding_rs = "0.8"
mongodb = "3"
scraper = "*"
serde = { version = "1", features = ["derive"] }
serde_json = "1"
tokio = { version = "1", features = ["macros", "rt-multi-thread"] }
tracing = "0.1"
tracing-subscriber = "0.3"
