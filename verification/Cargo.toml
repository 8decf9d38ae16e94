[package]
name = "auth"
version = "0.1.0"
edition = "2021"
publish = false

[dependencies]
sha2 = "=0.10.9"
fast32 = "=1.0.3"
rand = "=0.9.5"
argon2 = "=0.5.3"
totp-rs = { version = "=6.0.0", features = ["gen_secret", "otpauth", "qr"] }
uuid = { version = "=1.29.0", features = ["v4"] }
validator = "=0.21.0"
rust_decimal = "=1.43.0"
time = "=0.3.55"
serde_json = "=1.0.154"
serde = { version = "=1.0.229", features = ["derive"] }
anyhow = "=1.0.104"
tokio = { version = "=1.54.1", features = ["rt-multi-thread", "macros", "signal", "net", "time"] }
tracing = "=0.1.44"
tracing-subscriber = { version = "=0.3.23", features = ["env-filter"] }
sqlx = { version = "=0.8.6", default-features = false, features = ["postgres", "runtime-tokio", "uuid", "time", "rust_decimal"] }
axum = "=0.8.9"
utoipa = "5"
