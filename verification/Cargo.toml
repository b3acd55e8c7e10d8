[package]
name = "rbx_api"
version = "0.1.0"
edition = "2021"
publish = false

[dependencies]
anyhow = "1"
base64 = "0.13"
log = "0.4"
mime_guess = "2"
reqwest = { version = "0.11", default-features = false, features = ["json", "multipart", "stream"] }
scraper = "*"
serde = { version = "1", features = ["derive"] }
serde_json = "1"
thiserror = "1"
tokio = { version = "1", features = ["fs", "time", "macros", "rt"] }
tokio-util = { version = "0.7", features = ["codec"] }
url = "2"
