[package]
name = "moneyz"
version = "0.1.0"
edition = "2021"
publish = false

[dependencies]
chrono = "0.4"
env_logger = "0.7"
gtk = "0.9"
log = "0.4"
relm = "0.20"
relm-derive = "0.20"
serde = { version = "1", features = ["derive"] }
serde_json = "1"
