[package]
name = "fodder-core"
version = "0.4.0"
edition = "2021"
publish = false

[dependencies]
feed-rs = "=2.4.0"
sha2 = "=0.10.9"
html5ever = "=0.39.0"
markup5ever_rcdom = "=0.39.0"
url = "=2.5.8"
ammonia = "=4.2.4"
ureq = "=2.12.1"
serde = { version = "=1.0.229", features = ["derive"] }
serde_json = "=1.0.154"
toml = "=1.1.8"
chrono = "=0.4.45"
rusqlite = { version = "=0.41.1", features = ["bundled"] }
scraper = "*"
ego-tree = "*"
