[package]
name = "kanami"
version = "0.1.0"
edition = "2021"
publish = false

[dependencies]
serde_json = "*"
uuid = { version = "*", features = ["v4"] }
rand = "*"
tokio = { version = "*", features = ["full"] }
tokio-tungstenite = "*"
futures-util = "*"
log = "*"
anyhow = "*"
chrono = "*"
reqwest = { version = "*", default-features = false, features = ["json"] }
base64 = "*"
regex = "*"
serde = { version = "*", features = ["derive"] }
tokio-cron-scheduler = "*"
