[package]
name = "collector"
version = "0.1.0"
edition = "2021"
publish = false

[dependencies]
anyhow = "*"
base64 = "*"
crossterm = { version = "*", features = ["event-stream"] }
futures-util = "*"
ratatui = "*"
redis = { version = "*", features = ["tokio-comp"] }
regex = "*"
serde = { version = "*", features = ["derive"] }
serde_json = "*"
tokio = { version = "*", features = ["macros", "rt-multi-thread", "time", "sync"] }
