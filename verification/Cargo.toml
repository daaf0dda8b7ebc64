[package]
name = "maps-backend"
version = "0.1.0"
edition = "2021"
publish = false

[dependencies]
uuid = { version = "=1.29.0", features = ["v4", "serde"] }
image = "=0.25.10"
chrono = { version = "=0.4.45", features = ["serde"] }
axum = { version = "=0.7.9", features = ["ws", "multipart", "macros"] }
tokio = { version = "=1.54.1", features = ["full"] }
tower-http = { version = "=0.5.2", features = ["cors"] }
sea-orm = { version = "=1.1.20", default-features = false, features = ["sqlx-postgres", "runtime-tokio-rustls", "macros", "with-chrono", "with-uuid", "with-json"] }
sqlx = { version = "=0.8.6", default-features = false, features = ["runtime-tokio", "tls-rustls", "postgres"] }
reqwest = { version = "=0.12.28", default-features = false, features = ["json", "rustls-tls"] }
redis = { version = "=0.27.6", features = ["tokio-comp", "connection-manager"] }
serde = { version = "=1.0.229", features = ["derive"] }
serde_json = "=1.0.154"
futures-util = "=0.3.34"
tracing = "=0.1.44"
tracing-subscriber = "=0.3.23"
anyhow = "=1.0.104"
thiserror = "=1.0.69"
dotenvy = "=0.15.7"
hmac = "=0.12.1"
sha2 = "=0.10.9"
base64 = "=0.22.1"
rand = "=0.8.8"
