[package]
name = "cron_preview"
version = "0.1.0"
edition = "2021"
publish = false

[dependencies]
chrono-tz = "*"
clap = { version = "*", features = ["derive"] }
colored = "*"
cron = "*"
similar = "*"
