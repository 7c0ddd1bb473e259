[package]
name = "fanout_relay"
version = "0.1.0"
edition = "2021"
publish = false

[dependencies]
serde_json = "=1.0.151"
tokio = { version = "=1.53.2", features = ["full"] }
warp = { version = "=0.4.3", features = ["server", "websocket"] }
futures-util = "=0.3.34"
log = "=0.4.34"
env_logger = "=0.11.11"
