[package]
name = "river"
version = "0.1.0"
edition = "2021"
publish = false

[dependencies]
serde = { version = "=1.0.229", features = ["derive"] }
serde_json = "=1.0.154"
anyhow = "=1.0.104"
derive_more = { version = "=2.1.1", features = ["from", "try_into"] }
sqlx = { version = "=0.8.6", default-features = false, features = ["sqlite", "runtime-tokio", "migrate", "json", "derive"] }
axum-login = "=0.18.0"
