[package]
name = "access_core"
version = "0.1.0"
edition = "2021"
publish = false

[dependencies]
argon2 = "=0.5.3"
async-trait = "=0.1.92"
axum = "=0.7.9"
axum-extra = { version = "=0.9.6", features = ["typed-header"] }
bytes = "=1.12.1"
chrono = { version = "=0.4.45", features = ["serde"] }
deadpool-diesel = { version = "=0.6.1", features = ["postgres"] }
diesel = { version = "=2.3.14", features = ["postgres", "uuid", "chrono"] }
diesel_migrations = "2"
dotenvy = "=0.15.7"
http-body-util = "=0.1.5"
jsonwebtoken = "=9.3.1"
listenfd = "=1.0.2"
once_cell = "=1.21.4"
rand = "=0.8.8"
serde = { version = "=1.0.229", features = ["derive"] }
serde_json = "=1.0.154"
sha1 = "=0.10.7"
tokio = { version = "=1.54.1", features = ["full"] }
tower = "=0.4.13"
tower-http = { version = "=0.5.2", features = ["catch-panic"] }
uuid = { version = "=1.29.0", features = ["v4", "serde"] }

