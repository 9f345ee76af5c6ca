[package]
name = "bookmanager"
version = "0.1.0"
edition = "2021"
publish = false

[dependencies]
uuid = { version = "=1.29.0", features = ["v4"] }
chrono = { version = "=0.4.45", default-features = false, features = ["std", "clock"] }
bcrypt = "=0.15.1"
garde = { version = "=0.23.0", default-features = false, features = ["email"] }
anyhow = "=1.0.104"
thiserror = "=1.0.69"
serde = { version = "=1.0.229", features = ["derive"] }
async-trait = "=0.1.92"
axum = "=0.7.9"
tokio = { version = "=1.54.1", features = ["full"] }
sqlx = { version = "=0.7.4", default-features = false, features = ["runtime-tokio", "postgres", "uuid", "chrono"] }
redis = { version = "=1.8.0", features = ["tokio-comp"] }
tracing = "=0.1.44"
tracing-subscriber = { version = "=0.3.23", features = ["env-filter"] }
