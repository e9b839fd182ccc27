[package]
name = "jellyfin_client"
version = "0.1.0"
edition = "2021"
publish = false

[dependencies]
serde = { version = "=1.0.229", features = ["derive"] }
serde_json = "=1.0.151"
serde_yaml = "=0.9.34"
reqwest = { version = "=0.13.5", default-features = false, features = ["json", "query", "stream"] }
bytes = "=1.12.1"
futures = "=0.3.34"
futures-util = "=0.3.34"
