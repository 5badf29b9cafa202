[package]
name = "mini_exchange"
version = "0.1.0"
edition = "2021"
publish = false

[dependencies]
rust_decimal = "1"
uuid = { version = "1", features = ["v7"] }
argon2 = { version = "0.5", features = ["std"] }
jsonwebtoken = "9"
chrono = "0.4"
serde = { version = "1", features = ["derive"] }
serde_json = "1"
axum = "0.8"
axum-extra = { version = "0.10", features = ["typed-header"] }
tokio = { version = "1", features = ["full"] }
tower-http = { version = "0.6", features = ["cors"] }
reqwest = { version = "0.12", default-features = false, features = ["json", "rustls-tls"] }
sea-orm = { version = "1", default-features = false, features = ["sqlx-postgres", "runtime-tokio-rustls", "macros", "with-rust_decimal", "with-uuid", "with-chrono"] }
thiserror = "2"
tracing = "0.1"
tracing-subscriber = { version = "0.3", features = ["env-filter"] }
strum = { version = "0.27", features = ["derive"] }
validator = { version = "0.20", features = ["derive"] }
fastwebsockets = { version = "0.10", features = ["upgrade", "with_axum"] }
hyper = "1"
url = "2"
rand = "0.9"
