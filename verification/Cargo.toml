[package]
name = "task_api"
version = "0.1.0"
edition = "2021"
publish = false

[dependencies]
argon2 = "0.5"
rand_core = { version = "0.6", features = ["std"] }
jsonwebtoken = "8"
uuid = { version = "1", features = ["serde"] }
validator = "0.16"
serde = { version = "1", features = ["derive"] }
serde_json = "1"
axum = "0.6"
axum-extra = { version = "0.7", features = ["cookie"] }
tokio = { version = "1", features = ["full"] }
postgrest = "1"
tower = "0.4"
tower-http = { version = "0.4", features = ["cors", "fs"] }
time = "0.3"
chrono = { version = "0.4", features = ["serde"] }
dotenv = "0.15"
