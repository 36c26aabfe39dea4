[package]
name = "event_pipeline"
version = "0.1.0"
edition = "2021"
publish = false

[dependencies]
clap = { version = "*", features = ["derive"] }
colored = "*"
env_logger = "*"
log = "*"
ron = "*"
serde = { version = "*", features = ["derive"] }
thread-priority = "*"
