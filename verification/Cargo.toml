[package]
name = "ventalibre_server"
version = "0.1.0"
edition = "2021"
publish = false

[dependencies]
bcrypt = "0.15"
uuid = { version = "1", features = ["v4"] }
axum = "0.7"
tokio = { version = "1", features = ["macros", "rt-multi-thread", "net"] }
tower-http = { version = "0.5", features = ["cors"] }
http = "1"
serde = { version = "1", features = ["derive"] }
serde_json = "1"
sqlx = { version = "0.7", default-features = false, features = ["sqlite", "runtime-tokio"] }
dotenvy = "0.15"
jsonwebtoken = "9"
