[package]
name = "db_api"
version = "0.1.0"
edition = "2021"
publish = false

[dependencies]
heck = "0.3"
anyhow = "1"
async-std = "1"
serde = { version = "1", features = ["derive"] }
serde_yaml = "*"
sqlx = { version = "0.7", default-features = false, features = ["runtime-async-std", "mysql"] }
