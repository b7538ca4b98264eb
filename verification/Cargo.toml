[package]
name = "kit_ilias_downloader"
version = "0.1.0"
edition = "2021"
publish = false

[dependencies]
url = "=2.5.8"
regex = "=1.13.1"
serde_json = "=1.0.154"
scraper = "=0.29.0"
reqwest = { version = "=0.13.5", features = ["cookies", "stream", "form"] }
tokio = { version = "=1.54.1", features = ["full"] }
futures-util = "=0.3.34"
parking_lot = "=0.13.0"
structopt = "=0.3.26"
rprompt = "=2.2.0"
rpassword = "=7.5.4"
anyhow = "=1.0.104"
