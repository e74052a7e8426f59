[package]
name = "nocy"
version = "0.1.0"
edition = "2021"
publish = false

[dependencies]
anyhow = "1"
async-trait = "0.1"
bytes = "1"
chrono = "0.4"
crossterm = "*"
dirs = "*"
futures-util = "0.3"
indexmap = "2"
parking_lot = "0.12"
rand = "0.9"
ratatui = "*"
reqwest = { version = "0.12", default-features = false, features = ["json", "stream", "rustls-tls"] }
rodio = "*"
scraper = "*"
serde = { version = "1", features = ["derive"] }
serde_json = "1"
tempfile = "3"
tokio = { version = "1", features = ["full"] }
