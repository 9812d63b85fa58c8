[package]
name = "home_control"
version = "0.1.0"
edition = "2021"
publish = false

[dependencies]
serde_json = "*"
tokio = { version = "*", features = ["rt-multi-thread", "macros", "sync", "time", "net"] }
tokio-tungstenite = "*"
futures-util = "*"
url = "*"
