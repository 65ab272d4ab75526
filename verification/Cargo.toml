[package]
name = "hablemos_backend"
version = "0.1.0"
edition = "2021"
publish = false

[dependencies]
axum = "=0.8.9"
chrono = { version = "=0.4.45", features = ["serde"] }
serde = { version = "=1.0.229", features = ["derive"] }
serde_json = "=1.0.154"
sqlx = { version = "=0.8.6", default-features = false, features = ["runtime-tokio", "postgres", "uuid", "chrono", "derive"] }
uuid = { version = "=1.29.0", features = ["v4", "serde"] }
validator = { version = "=0.21.0", features = ["derive"] }
