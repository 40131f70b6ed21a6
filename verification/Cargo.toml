[package]
name = "climbsheet"
version = "0.1.0"
edition = "2021"
publish = false

[dependencies]
base64 = "0.21"
chrono = { version = "0.4", features = ["serde"] }
eyre = "0.6"
futures = "0.3"
google-sheets4 = "5"
rand = "0.8"
regex = "1"
reqwest = { version = "0.11", default-features = false, features = ["rustls-tls", "cookies", "json"] }
scraper = "0.18"
secrecy = { version = "0.8", features = ["serde"] }
serde = { version = "1", features = ["derive"] }
serde_json = "1"
sha2 = "0.10"
tokio = { version = "1", features = ["macros", "rt-multi-thread", "time", "sync"] }
toml = "0.8"
tracing = "0.1"
url = "2"
