[package]
name = "split_costs_rust_backend"
version = "0.1.0"
edition = "2021"
publish = false

[dependencies]
argon2 = { version = "=0.5.3", features = ["std"] }
axum = { version = "=0.8.9", features = ["macros"] }
axum-extra = { version = "=0.10.3", features = ["cookie"] }
deadpool-diesel = { version = "=0.6.1", features = ["postgres"] }
diesel = { version = "=2.3.14", features = ["postgres", "time"] }
dotenvy = "=0.15.7"
jsonwebtoken = "=9.3.1"
serde = { version = "=1.0.229", features = ["derive"] }
time = { version = "=0.3.55", features = ["serde"] }
tokio = { version = "=1.54.1", features = ["full"] }
tracing = "=0.1.44"
tracing-subscriber = "=0.3.23"
validator = { version = "=0.20.0", features = ["derive"] }
