[package]
name = "supplement_api"
version = "0.1.0"
edition = "2021"
publish = false

[dependencies]
uuid = { version = "=1.27.0", features = ["v4", "serde"] }
serde = { version = "=1.0.229", features = ["derive"] }
axum = { version = "=0.7.9" }
tokio = { version = "=1.53.2", features = ["macros", "rt-multi-thread", "net"] }
sqlx = { version = "=0.7.4", default-features = false, features = ["runtime-tokio", "postgres", "uuid"] }
dotenv = { version = "=0.15.0" }
