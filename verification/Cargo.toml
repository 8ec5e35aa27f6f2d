[package]
name = "taskmanager_api"
version = "0.1.0"
edition = "2021"
publish = false

[dependencies]
actix-web = "4"
actix-jwt-session = "1.0"
dotenv = "0.15"
env_logger = { version = "0.10", default-features = false }
log = "0.4"
mongodb = { version = "2", features = ["tokio-sync"] }
redis-async-pool = "0.2"
serde = { version = "1", features = ["derive"] }
serde_json = "1"
uuid = { version = "1", features = ["v4", "serde"] }
validator = "0.16"
