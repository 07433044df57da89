[package]
name = "buttplug"
version = "0.1.0"
edition = "2021"
publish = false

[dependencies]
once_cell = "1"
tokio = { version = "1", default-features = false, features = ["sync", "rt"] }
reqwest = { version = "0.11", default-features = false }
futures = "0.3"
async-trait = "0.1"
tracing = "0.1"
serde_json = "1"
log = "0.4"
env_logger = "0.11"
