[package]
name = "peach_menu"
version = "0.2.0"
edition = "2021"
publish = false

[dependencies]
chrono = "*"
anyhow = "*"
log = "*"
env_logger = "*"
futures = "*"
serde = { version = "*", features = ["derive"] }
serde_json = "*"
tokio = { version = "*", features = ["full"] }
gpio-cdev = { version = "*", features = ["async-tokio"] }
jsonrpc-client-core = "*"
jsonrpc-client-http = "*"
