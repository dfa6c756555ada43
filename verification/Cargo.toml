[package]
name = "vibede_core"
version = "0.1.0"
edition = "2021"
publish = false

[dependencies]
base64 = "=0.22.1"
base64ct = { version = "=1.8.3", features = ["alloc"] }
chrono = "=0.4.45"
log = "=0.4.34"
langchain-rust = { version = "4", default-features = false }
notify = "6"
rand = "=0.8.8"
reqwest = { version = "=0.12.28", default-features = false, features = ["blocking", "json"] }
serde = { version = "=1.0.229", features = ["derive"] }
serde_json = "=1.0.154"
sha2 = "=0.10.9"
tokio = { version = "1", features = ["rt", "sync"] }
url = "=2.5.8"
urlencoding = "=2.1.3"
uuid = { version = "1", features = ["v4"] }
walkdir = "=2.5.0"
