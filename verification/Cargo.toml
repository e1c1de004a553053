[package]
name = "better_endpoint_protection"
version = "0.1.0"
edition = "2021"
publish = false

[dependencies]
serde_json = "1"
tokio = { version = "1", features = ["full"] }
tokio-tungstenite = "*"
futures-util = "*"
clap = { version = "4", features = ["derive"] }
