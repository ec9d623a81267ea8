[package]
name = "anime_scraper"
version = "0.1.0"
edition = "2021"
publish = false

[dependencies]
scraper = "*"
anyhow = "1"
axum = "0.7"
fantoccini = "0.19"
headless_chrome = "1"
hyper = { version = "0.14", features = ["client", "tcp", "http1"] }
once_cell = "1"
reqwest = "0.11"
serde = { version = "1", features = ["derive"] }
serde_json = "1"
tokio = { version = "1", features = ["full"] }
tower-http = { version = "0.5", features = ["cors"] }
trust-dns-resolver = "0.22"
