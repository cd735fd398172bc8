[package]
name = "clioude"
version = "0.1.0"
edition = "2021"
publish = false

[dependencies]
url = "2"
futures = "0.3"
serde = { version = "1", features = ["derive"] }
serde_json = "1"
sysinfo = "0.20"
tokio = { version = "1", features = ["full"] }
tokio-tungstenite = "0.15"
