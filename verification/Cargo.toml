[package]
name = "rkvm_client"
version = "0.1.0"
edition = "2021"
publish = false

[dependencies]
anyhow = "*"
env_logger = "*"
futures = "*"
log = "*"
serde = { version = "*", features = ["derive"] }
structopt = "*"
tokio = { version = "*", features = ["full"] }
tokio-native-tls = "*"
toml = "*"
