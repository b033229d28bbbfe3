[package]
name = "feed_sync"
version = "0.1.0"
edition = "2021"
publish = false

[dependencies]
anyhow = "=1.0.104"
chrono = "=0.4.45"
diesel = { version = "=1.4.8", features = ["sqlite", "chrono"] }
futures = "=0.3.34"
open = "=1.7.1"
rss = "=2.1.2"
serde = { version = "=1.0.229", features = ["derive"] }
serde_json = "=1.0.154"
smol = "=0.1.18"
surf = "=2.3.2"
tauri = "=0.11.1"
webview_official = "=0.0.4"
