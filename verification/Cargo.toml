[package]
name = "bluebird"
version = "0.1.0"
edition = "2021"
publish = false

[dependencies]
rand = "=0.8.8"
serde = { version = "1", features = ["derive"] }
serde_json = "1"
axum = "=0.7.9"
sqlx = { version = "0.8", default-features = false, features = ["postgres", "runtime-tokio", "migrate"] }
shuttle-runtime = "=0.57.0"
shuttle-shared-db = { version = "0.57", features = ["postgres", "sqlx"] }
