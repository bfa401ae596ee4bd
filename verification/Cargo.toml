[package]
name = "robot_control_server"
version = "0.1.0"
edition = "2021"
publish = false

[dependencies]
anyhow = "1"
chrono = "0.4"
clap = { version = "4", features = ["derive"] }
comfy-table = "7"
ctrlc = "3"
futures-util = "0.3"
image = { version = "0.25", default-features = false, features = ["jpeg"] }
nokhwa = { version = "0.10", features = ["input-native"] }
poem = { version = "3", features = ["websocket"] }
poem-openapi = { version = "5", features = ["swagger-ui"] }
rustypot = "*"
serde = { version = "1", features = ["derive"] }
serde_json = "1"
serialport = "4"
tokio = { version = "1", features = ["full"] }
tokio-util = "0.7"
tracing = "0.1"
tracing-subscriber = { version = "0.3", features = ["env-filter"] }
