[package]
name = "pubsub"
version = "0.1.0"
edition = "2021"
publish = false

[dependencies]
tokio = { version = "1", features = ["sync", "macros", "rt-multi-thread"] }
warp = { version = "0.3", default-features = false, features = ["websocket"] }
uuid = { version = "1", features = ["v4"] }
serde = { version = "1", features = ["derive"] }
serde_json = "1"
futures = "0.3"
tokio-stream = "0.1"
log = "0.4"
env_logger = "0.11"
