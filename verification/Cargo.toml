[package]
name = "pywatt_sdk"
version = "0.1.0"
edition = "2021"
publish = false

[dependencies]
dashmap = "=6.2.1"
uuid = { version = "=1.29.0", features = ["v4"] }
serde = { version = "=1.0.229", features = ["derive"] }
serde_json = "=1.0.154"
rand = "=0.9.5"
base64 = "=0.22.1"
tokio = { version = "=1.54.1", features = ["rt-multi-thread", "macros", "io-util", "io-std", "sync", "time", "net", "fs"] }
tracing = "=0.1.44"
tracing-subscriber = { version = "=0.3.23", features = ["json", "env-filter"] }
url = "=2.5.8"
thiserror = "=2.0.21"
axum = "=0.8.9"
tower = "=0.5.3"
fs2 = "0.4"
