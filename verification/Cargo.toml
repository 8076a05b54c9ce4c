[package]
name = "gemini_client"
version = "0.1.0"
edition = "2021"
publish = false

[dependencies]
rust-crypto = "=0.2.36"
hex = "=0.4.3"
base64 = "=0.13.1"
serde_json = { version = "=1.0.151", features = ["arbitrary_precision"] }
chrono = "=0.4.45"
hyper = { version = "=0.14.32", features = ["client", "http1", "tcp"] }
hyper-tls = "=0.5.0"
futures = "=0.3.34"
futures-util = "=0.3.34"
tokio-tungstenite = "=0.20.1"
