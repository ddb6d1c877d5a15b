[package]
name = "grid_proxy"
version = "0.1.0"
edition = "2021"
publish = false

[dependencies]
serde_json = "1"
uuid = { version = "1", features = ["v4"] }
bytes = "1"
hyper = { version = "0.14", features = ["full"] }
reqwest = { version = "0.11", default-features = false }
tokio = { version = "1", features = ["macros", "rt-multi-thread", "time"] }
clap = "2"
log = "0.4"
env_logger = "0.10"
url = "2"
