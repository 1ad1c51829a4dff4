[package]
name = "auth_core"
version = "0.1.0"
edition = "2021"
publish = false

[dependencies]
bcrypt = "=0.19.3"
chrono = "=0.4.45"
dotenvy = "=0.15.7"
jsonwebtoken = { version = "=11.1.0", features = ["rust_crypto"] }
serde = { version = "=1.0.229", features = ["derive"] }
serde_json = "=1.0.151"
sqlx = { version = "=0.9.0", features = ["runtime-tokio", "postgres", "uuid", "chrono"], default-features = false }
tokio = { version = "=1.53.2", features = ["macros", "rt"] }
uuid = { version = "=1.27.0", features = ["v4", "serde"] }
vercel_runtime = "=1.1.6"
