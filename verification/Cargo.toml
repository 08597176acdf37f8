[package]
name = "superpanels"
version = "0.1.0"
edition = "2021"
publish = false

[dependencies]
anyhow = "1"
base64 = "0.22"
chrono = "0.4"
clap = { version = "4", features = ["derive"] }
cron = "*"
serde = { version = "1", features = ["derive"] }
serde_json = "1"
