[package]
name = "user_startup"
version = "0.1.0"
edition = "2021"
publish = false

[dependencies]
clap = { version = "4", features = ["derive"] }
comfy-table = "*"
dirs = "*"
log = "0.4"
pretty_env_logger = "0.5"
