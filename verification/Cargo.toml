[package]
name = "users_api"
version = "0.1.0"
edition = "2021"
publish = false

[dependencies]
actix-web = { version = "=4.15.0", default-features = false }
uuid = { version = "=1.27.0", features = ["v4", "serde"] }
validator = "=0.21.0"
serde = { version = "=1.0.229", features = ["derive"] }
