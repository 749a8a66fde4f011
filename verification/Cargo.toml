[package]
name = "snipstack"
version = "0.1.0"
edition = "2021"
publish = false

[dependencies]
uuid = { version = "=1.29.0", features = ["v4"] }
image = { version = "=0.25.10", default-features = false, features = ["png", "jpeg"] }
rxing = "=0.7.1"
sha2 = "0.10"
serde = { version = "=1.0.229", features = ["derive"] }
serde_json = "=1.0.154"
reqwest = { version = "=0.12.28", default-features = false, features = ["rustls-tls", "stream"] }
futures-util = "=0.3.34"
tokio = { version = "=1.54.1", features = ["rt-multi-thread", "time", "macros"] }
chrono = "=0.4.45"
anyhow = "=1.0.104"
log = "=0.4.35"
