[package]
name = "tank_arena"
version = "0.1.0"
edition = "2021"
publish = false

[dependencies]
uuid = { version = "=1.29.0", features = ["v4", "serde"] }
line_drawing = "=1.0.1"
serde = { version = "=1.0.229", features = ["derive"] }
serde_json = "=1.0.154"
tokio = { version = "=1.54.1", features = ["full"] }
tokio-tungstenite = "=0.20.1"
futures-util = "=0.3.34"
warp = "=0.3.7"
log = "=0.4.34"
env_logger = "=0.10.2"

[dev-dependencies]
regex = "=1.13.1"
querystring = "=1.1.0"
