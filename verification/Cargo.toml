[package]
name = "rustitch"
version = "0.1.0"
edition = "2021"
publish = false

[dependencies]
secrecy = "=0.10.3"
hmac = "=0.12.1"
sha2 = "=0.10.9"
time = { version = "=0.3.55", features = ["parsing", "formatting", "serde"] }
serde = { version = "=1.0.229", features = ["derive"] }
serde_json = "=1.0.154"
reqwest = { version = "=0.12.28", default-features = false, features = ["json"] }
tokio = { version = "=1.54.1", features = ["sync", "rt", "macros", "net"] }
tokio-util = "=0.7.20"
thiserror = "=2.0.21"
bytes = "=1.12.1"
axum = { version = "=0.8.9", default-features = false }
