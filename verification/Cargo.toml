[package]
name = "streamdeck_rs"
version = "0.1.0"
edition = "2021"
publish = false

[dependencies]
serde_json = { version = "1", features = ["preserve_order"] }
serde = "1"
tokio = { version = "1", features = ["net"] }
tokio-tungstenite = "*"
futures = "0.3"
url = "2"
slog = "2"
