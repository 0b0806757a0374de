[package]
name = "dns_manager"
version = "0.1.0"
edition = "2021"
publish = false

[dependencies]
sha2 = "=0.10.9"
sha1 = "=0.10.7"
hmac = "=0.12.1"
hex = "=0.4.3"
base64 = "=0.22.1"
urlencoding = "=2.1.3"
chrono = { version = "=0.4.45", features = ["serde"] }
uuid = { version = "=1.29.0", features = ["v4", "serde"] }
rand = "=0.8.8"
serde = { version = "=1.0.229", features = ["derive"] }
serde_json = "=1.0.154"
reqwest = { version = "=0.12.28", default-features = false, features = ["json", "rustls-tls"] }
tokio = { version = "=1.54.1", features = ["rt-multi-thread", "macros", "time"] }
keyring = "=3.6.3"
anyhow = "=1.0.104"
async-trait = "=0.1.92"
log = "=0.4.35"
thiserror = "=1.0.69"
