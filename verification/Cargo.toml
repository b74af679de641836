[package]
name = "bioma"
version = "0.1.0"
edition = "2021"
publish = false

[dependencies]
anyhow = "1"
futures = "0.3"
object_store = { version = "0.11", default-features = false }
ollama-rs = { version = "0.2", features = ["stream"] }
serde = { version = "1", features = ["derive"] }
serde_json = "1"
thiserror = "1"
tokio = { version = "1", features = ["io-std", "io-util", "net", "sync", "rt", "macros", "time"] }
tokio-tungstenite = "0.26"
tracing = "0.1"
url = "=2.5.8"
