[package]
name = "rusty_containers"
version = "0.1.0"
edition = "2021"
publish = false

[dependencies]
anyhow = "*"
bollard = "*"
env_logger = "*"
futures-util = "*"
tokio = { version = "*", features = ["macros", "rt-multi-thread"] }
