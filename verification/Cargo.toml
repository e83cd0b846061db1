[package]
name = "tenauth"
version = "0.1.0"
edition = "2021"
publish = false

[dependencies]
argon2 = "=0.6.0"
jsonwebtoken = { version = "=11.1.0", features = ["rust_crypto"] }
rand = "=0.10.3"
chrono = "=0.4.45"
validator = "=0.21.0"
serde = { version = "=1.0.229", features = ["derive"] }
serde_json = "=1.0.151"
uuid = { version = "=1.27.0", features = ["v4"] }
anyhow = "=1.0.104"
dotenvy = "=0.15.7"
tokio = { version = "=1.53.2", features = ["rt-multi-thread", "macros", "net"] }
axum = "=0.8.9"
sqlx = { version = "=0.9.0", features = ["runtime-tokio", "postgres", "uuid", "chrono"], default-features = false }
redis = { version = "=1.7.1", features = ["tokio-comp", "connection-manager"] }
