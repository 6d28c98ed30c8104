[package]
name = "credential_service"
version = "0.1.0"
edition = "2021"
publish = false

[dependencies]
bcrypt = "*"
axum = { version = "*", features = ["macros"] }
dotenvy = "*"
serde = { version = "*", features = ["derive"] }
serde_json = "*"
sqlx = { version = "*", default-features = false, features = ["runtime-tokio", "postgres"] }
thiserror = "*"
tokio = { version = "*", features = ["rt-multi-thread", "net", "macros"] }
tower-http = { version = "*", features = ["cors"] }
tracing = "*"
tracing-subscriber = "*"
