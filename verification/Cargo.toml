[package]
name = "build_executor"
version = "0.1.0"
edition = "2021"
publish = false

[dependencies]
base64 = "0.13"
uuid = { version = "1", features = ["v4"] }
path-clean = "1"
tokio = { version = "1", features = ["full"] }
serde = { version = "1", features = ["derive"] }
serde_json = { version = "1", features = ["preserve_order"] }
log = "0.4"
env_logger = "*"
tempdir = "0.3"
