[package]
name = "wof_stats"
version = "0.1.0"
edition = "2021"
publish = false

[dependencies]
chrono = "=0.4.45"
indicatif = "=0.17.11"
polars = { version = "=0.35.4", default-features = false, features = ["csv", "dtype-datetime", "timezones"] }
scraper = "=0.29.0"
serde = { version = "=1.0.229", features = ["derive"] }
serde_json = "=1.0.154"
