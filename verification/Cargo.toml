[package]
name = "qbit_killswitch"
version = "0.4.0"
edition = "2021"
publish = false

[dependencies]
url = "2"
serde_json = "1"
semver = "1"
sha2 = "0.10"
hex = "0.4"
serde = { version = "1", features = ["derive"] }
toml = "0.8"
anyhow = "1"
keyring = "3"
auto-launch = "0.5"
self-replace = "1"
tokio = { version = "1", features = ["rt-multi-thread", "macros", "time", "sync"] }
reqwest = { version = "0.12", default-features = false, features = ["cookies", "rustls-tls", "json", "blocking"] }
