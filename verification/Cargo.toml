[package]
name = "vmlaunch"
version = "0.1.0"
edition = "2021"
publish = false

[dependencies]
anyhow = "1"
env_logger = "0.11"
gtk4 = { version = "0.9", features = ["v4_12"] }
log = "0.4"
