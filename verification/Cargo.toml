[package]
name = "timelog"
version = "0.1.0"
edition = "2021"
publish = false

[dependencies]
serde = { version = "1", features = ["derive"] }
serde_json = "1"
chrono = "0.4"
axum = "0.7"
tokio = { version = "1", features = ["rt-multi-thread", "macros", "net", "time"] }
tower-http = { version = "0.5", features = ["cors"] }
sqlx = { version = "0.8", default-features = false, features = ["runtime-tokio", "postgres"] }
dotenvy = "0.15"
