[package]
name = "coder"
version = "0.1.0"
edition = "2021"
publish = false

[dependencies]
clap = { version = "=4.6.7", features = ["derive"] }
clap_complete = "=4.6.11"
env_logger = "=0.11.11"
ignore = "=0.4.33"
inference-gateway-sdk = "=0.28.0"
log = "=0.4.34"
octocrab = "=0.41.2"
serde = { version = "=1.0.229", features = ["derive"] }
serde_json = "=1.0.151"
serde_yaml = "=0.9.34"
thiserror = "=2.0.21"
tiktoken-rs = "=0.12.1"
tokio = { version = "=1.53.2", features = ["macros", "rt-multi-thread", "time"] }
uuid = { version = "=1.27.0", features = ["v4"] }
