[package]
name = "rincuma"
version = "0.1.0"
edition = "2021"
publish = false

[dependencies]
argon2 = "=0.6.0"
axum = "=0.8.9"
base64 = "=0.22.1"
cookie = "=0.18.2"
dotenvy = "=0.15.7"
envy = "=0.4.2"
getrandom = "=0.3.4"
jiff = { version = "=0.2.43", features = ["serde"] }
serde = { version = "=1.0.229", features = ["derive"] }
sha2 = "=0.10.9"
thiserror = "=2.0.21"
toasty = { version = "=0.11.0", default-features = false }
tokio = { version = "=1.54.1", features = ["macros", "rt-multi-thread", "sync", "net"] }
tower-http = { version = "=0.6.11", features = ["trace"] }
tracing = "=0.1.44"
