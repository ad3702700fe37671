[package]
name = "portrait_booth"
version = "0.1.0"
edition = "2021"
publish = false

[dependencies]
base64 = "=0.21.7"
bcrypt = "=0.15.1"
chrono = { version = "=0.4.45", default-features = false, features = ["clock", "std"] }
totp-rs = { version = "=5.7.2", features = ["gen_secret"] }
uuid = { version = "=1.29.0", features = ["v4"] }
tokio = { version = "=1.54.1", features = ["rt-multi-thread", "macros", "net"] }
axum = "=0.7.9"
sqlx = { version = "=0.7.4", default-features = false, features = ["mysql", "runtime-tokio", "chrono"] }
serde = { version = "=1.0.229", features = ["derive"] }
dotenvy = "=0.15.7"
lettre = { version = "=0.11.23", default-features = false, features = ["builder", "smtp-transport", "tokio1", "tokio1-rustls-tls"] }
rust-s3 = { version = "=0.33.0", default-features = false, features = ["tokio-rustls-tls"] }
reqwest = { version = "=0.11.27", default-features = false, features = ["rustls-tls", "json"] }
