[package]
name = "jwt_lib"
version = "0.1.0"
edition = "2021"
publish = false

[dependencies]
jsonwebtoken = "9"
chrono = "0.4"
serde = { version = "1", features = ["derive"] }
serde_json = "1"
actix-web = { version = "4", default-features = false, features = ["macros"] }
axum = "0.7"
tokio = { version = "1", features = ["rt-multi-thread", "net", "macros"] }
