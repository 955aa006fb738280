[package]
name = "user_service"
version = "0.1.0"
edition = "2021"
publish = false

[dependencies]
actix-web = "4"
derive_more = "0.99"
diesel = { version = "2", features = ["postgres", "r2d2"] }
env_logger = "*"
r2d2 = "0.8"
serde = { version = "1", features = ["derive"] }
serde_json = "1"
sodiumoxide = "0.2"
