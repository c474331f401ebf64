[package]
name = "tilefps"
version = "0.1.0"
edition = "2021"
publish = false

[dependencies]
env_logger = { version = "0.11", default-features = false }
image = { version = "0.24", default-features = false, features = ["png"] }
pollster = "0.3"
rust-embed = "8"
spin_sleep = "1"
