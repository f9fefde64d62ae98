[package]
name = "mediasoup-server"
version = "0.1.0"
edition = "2021"
publish = false

[dependencies]
anyhow = "1"
dashmap = "6"
futures-util = "0.3"
mediasoup = "*"
serde = { version = "1", features = ["derive"] }
serde_json = "1"
thiserror = "1"
tokio = { version = "1", features = ["full"] }
tokio-tungstenite = "0.24"
tracing = "0.1"
tracing-subscriber = "0.3"
uuid = { version = "1", features = ["v4"] }
