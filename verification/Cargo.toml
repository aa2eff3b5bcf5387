[package]
name = "autodl_rss"
version = "0.1.0"
edition = "2021"
publish = false

[dependencies]
qbittorrent = "*"
reqwest = "*"
quick-xml = { version = "*", features = ["serialize"] }
serde = { version = "*", features = ["derive"] }
serde_json = "*"
serde_yaml = "*"
thiserror = "*"
tokio = { version = "*", features = ["full"] }
http = "*"
