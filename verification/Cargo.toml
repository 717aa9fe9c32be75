[package]
name = "crawl_core"
version = "0.1.0"
edition = "2021"
publish = false

[dependencies]
scraper = "*"
readability-rust = "*"
html2md = "*"
urlencoding = "*"
serde = { version = "1", features = ["derive"] }
serde_json = "1"
tokio = { version = "1", features = ["macros", "rt-multi-thread", "sync", "time", "io-std"] }
rmcp = { version = "*", features = ["server", "macros", "transport-io"] }
playwright-rs = "*"
