[package]
name = "sotm_client"
version = "0.1.0"
edition = "2021"
publish = false

[dependencies]
serde = { version = "1", features = ["derive"] }
serde_json = "1"
tokio = { version = "1", features = ["rt-multi-thread", "macros", "net", "sync", "io-util", "io-std", "time"] }
tokio-tungstenite = "*"
futures-util = "0.3"
