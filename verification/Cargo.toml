[package]
name = "eth_archive"
version = "0.1.0"
edition = "2021"
publish = false

[dependencies]
polars = { version = "*", default-features = false, features = ["lazy"] }
serde = { version = "*", features = ["derive"] }
serde_json = "*"
tokio = { version = "*", features = ["rt-multi-thread", "macros", "time", "fs"] }
futures = "*"
log = "*"
env_logger = "*"
toml = "*"
