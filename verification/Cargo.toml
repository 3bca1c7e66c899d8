[package]
name = "yaydl"
version = "0.1.0"
edition = "2021"
publish = false

[dependencies]
anyhow = "1"
clap = { version = "4", features = ["derive", "env"] }
env_proxy = "*"
regex = "1"
scraper = "*"
ureq = "2"
url = "2"
