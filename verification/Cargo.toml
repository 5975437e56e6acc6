[package]
name = "marketplace_indexer"
version = "0.1.0"
edition = "2021"
publish = false

[dependencies]
base64 = "=0.13.1"
serde_json = "=1.0.154"
serde = { version = "=1.0.229", features = ["derive"] }
reqwest = { version = "=0.11.27", default-features = false, features = ["json"] }
tokio = { version = "=1.54.1", features = ["rt-multi-thread", "macros", "sync", "time"] }
tokio-stream = "=0.1.19"
futures = "=0.3.34"
clap = { version = "=4.6.7", features = ["derive"] }
actix = "0.13"
openssl-probe = "0.1"
