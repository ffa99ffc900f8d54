[package]
name = "hn_daily"
version = "0.1.0"
edition = "2021"
publish = false

[dependencies]
anyhow = "1"
chrono = "0.4"
dirs = "*"
html2text = "*"
readability = { version = "*", default-features = false }
reqwest = { version = "0.12", features = ["blocking", "json"] }
scraper = "*"
serde = { version = "1", features = ["derive"] }
url = "2"
which = "*"
