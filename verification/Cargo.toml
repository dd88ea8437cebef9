[package]
name = "sunsniff"
version = "0.1.0"
edition = "2021"
publish = false

[dependencies]
futures = "=0.3.34"
url = "=2.5.8"
reqwest = { version = "0.13", default-features = false }
prometheus-reqwest-remote-write = "=0.5.0"
serde = { version = "1", features = ["derive"] }
toml = "*"
clap = { version = "4", features = ["derive"] }
tokio = { version = "1", features = ["macros", "rt"] }
async-trait = "*"
async-std = "*"
log = "*"
env_logger = "*"
