[package]
name = "rust_rsshub"
version = "0.1.0"
edition = "2021"
publish = false

[dependencies]
anyhow = "1"
atom_syndication = "*"
axum = "0.7"
chrono = { version = "0.4", features = ["serde"] }
encoding_rs = "0.8"
reqwest = { version = "0.12", default-features = false, features = ["json", "rustls-tls"] }
rss = "*"
scraper = "*"
serde = { version = "1", features = ["derive"] }
serde_json = "1"
serde_yaml = "0.9"
thiserror = "1"
tokio = { version = "1", features = ["full"] }
tracing = "0.1"
tracing-subscriber = { version = "0.3", features = ["env-filter"] }
url = "2"
