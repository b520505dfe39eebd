[package]
name = "llmaap"
version = "0.1.0"
edition = "2021"
publish = false

[dependencies]
anyhow = "1"
chrono = "0.4"
clap = { version = "4", features = ["derive"] }
env_logger = "*"
log = "0.4"
ringbuffer = "0.15"
serde = { version = "1", features = ["derive"] }
serde_json = "1"
toml = "*"
ureq = { version = "3", features = ["json"] }
wait-timeout = "0.2"
