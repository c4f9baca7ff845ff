[package]
name = "arhivarch_downloader"
version = "0.1.0"
edition = "2021"
publish = false

[dependencies]
anyhow = "=1.0.104"
clap = { version = "=4.6.7", features = ["derive"] }
ego-tree = "=0.11.1"
ratatui = "=0.29.0"
reqwest = { version = "=0.12.28", default-features = false, features = ["blocking", "rustls-tls"] }
scraper = "=0.29.0"
ureq = "=3.5.1"
