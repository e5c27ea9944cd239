[package]
name = "statestore"
version = "0.1.0"
edition = "2021"
publish = false

[dependencies]
dapr = "*"
tokio = { version = "*", features = ["macros", "rt-multi-thread", "time"] }
anyhow = "*"
env_logger = "*"
log = "*"
