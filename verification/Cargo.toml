[package]
name = "health_service"
version = "0.1.0"
edition = "2021"
publish = false

[dependencies]
axum = "*"
serde = { version = "*", features = ["derive"] }
sqlx = { version = "*", default-features = false, features = ["postgres", "runtime-tokio", "tls-rustls"] }
tokio = { version = "*", features = ["macros", "rt-multi-thread", "net", "signal"] }
tower-http = { version = "*", features = ["timeout"] }

[dev-dependencies]
serde_json = "*"
