[package]
name = "messaging_app_backend"
version = "0.1.0"
edition = "2021"
publish = false

[dependencies]
jsonwebtoken = "9"
uuid = { version = "1", features = ["v4"] }
regex = "1"
bcrypt = "0.15"
validator = { version = "0.16", features = ["derive"] }
chrono = "0.4"
prometheus = { version = "0.13", default-features = false }
serde = { version = "1", features = ["derive"] }
serde_json = "1"
axum = { version = "0.7", features = ["ws", "multipart"] }
tokio = { version = "1", features = ["full"] }
sqlx = { version = "0.7", default-features = false, features = ["runtime-tokio", "postgres", "uuid", "chrono"] }
redis = { version = "0.24", default-features = false }
tower-http = { version = "0.5", features = ["cors"] }
tracing = "0.1"
tracing-subscriber = "0.3"
futures-util = "0.3"
dotenv = "0.15"
anyhow = "1"
thiserror = "1"
rand = "0.8"
lettre = { version = "0.11", default-features = false, features = ["builder", "smtp-transport", "rustls-tls"] }
