[package]
name = "qtunnel"
version = "0.1.0"
edition = "2021"
publish = false

[dependencies]
quinn = "0.8"
rustls = "0.20"
rustls-pemfile = "1"
tokio = { version = "1", features = ["full"] }
futures-util = "0.3"
log = "0.4"
env_logger = "0.9"
serde = { version = "1", features = ["derive"] }
serde_json = "1"
toml = "0.5"
pin-project-lite = "0.2"
