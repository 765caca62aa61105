[package]
name = "web_monitor"
version = "0.1.0"
edition = "2021"
publish = false

[dependencies]
anyhow = "=1.0.104"
async-trait = "=0.1.92"
clap = { version = "=3.2.25", features = ["derive"] }
env_logger = "=0.10.2"
log = "=0.4.34"
reqwest = "=0.11.27"
serde = { version = "=1.0.229", features = ["derive"] }
serde_yaml = "=0.9.34"
tokio = { version = "=1.54.1", features = ["full"] }

[dev-dependencies]
hyper = { version = "=0.14.32", features = ["client", "tcp", "http1"] }
