[package]
name = "deltaplan"
version = "0.1.0"
edition = "2021"
publish = false

[dependencies]
chrono = { version = "=0.4.45", features = ["serde"] }
clap = { version = "=4.6.7", features = ["derive"] }
env_logger = "=0.11.11"
log = "=0.4.34"
serde = { version = "=1.0.229", features = ["derive"] }
serde_yaml = "=0.9.34"
