[package]
name = "dispatch_core"
version = "0.1.0"
edition = "2021"
publish = false

[dependencies]
anyhow = "*"
bcrypt = "*"
chrono = "*"
deadpool-postgres = "*"
env_logger = "*"
jsonwebtoken = "*"
log = "*"
serde = { version = "*", features = ["derive"] }
serde_json = "*"
tokio = { version = "*", features = ["full"] }
tokio-postgres = "*"
