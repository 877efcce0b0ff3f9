[package]
name = "user_service"
version = "0.1.0"
edition = "2021"
publish = false

[dependencies]
argon2 = "*"
validator = "*"
axum = "*"
tokio = { version = "*", features = ["macros", "rt-multi-thread", "net"] }
serde = { version = "*", features = ["derive"] }
dotenvy = "*"
