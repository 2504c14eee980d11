[package]
name = "taskboard"
version = "0.1.0"
edition = "2021"
publish = false

[dependencies]
chrono = "0.4"
serde = { version = "1", features = ["derive"] }
serde_json = "1"
thiserror = "1"
axum = "0.7"
tokio = { version = "1", features = ["macros", "rt-multi-thread", "net"] }
dotenv = "0.15"
url = "2"
deadpool = "0.12"
deadpool-postgres = "0.14"
tokio-postgres = "0.7"
redis = { version = "0.27", features = ["tokio-comp"] }
bb8-redis = "0.17"
