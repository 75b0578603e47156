[package]
name = "mediahub"
version = "0.1.0"
edition = "2021"
publish = false

[dependencies]
url = "=2.5.8"
base64 = "=0.22.1"
sha2 = "=0.10.9"
getrandom = "=0.2.17"
keyring = { version = "=3.6.3", features = ["windows-native", "apple-native", "linux-native"] }
serde = { version = "=1.0.229", features = ["derive"] }
serde_json = "=1.0.154"
rusqlite = { version = "=0.41.1", features = ["bundled"] }
reqwest = { version = "=0.12.28", default-features = false, features = ["json", "rustls-tls"] }
