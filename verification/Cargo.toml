[package]
name = "survival_bot"
version = "0.1.0"
edition = "2021"
publish = false

[dependencies]
serde_json = "1"
hmac = "0.12"
sha2 = "0.10"
hex = "0.4"
serde = { version = "1", features = ["derive"] }
tokio = { version = "1", features = ["rt-multi-thread", "macros", "time", "sync", "net"] }
axum = { version = "*", features = ["ws"] }
reqwest = { version = "*", default-features = false, features = ["json", "rustls-tls"] }
sqlx = { version = "*", default-features = false, features = ["runtime-tokio-rustls", "postgres", "chrono", "uuid", "derive"] }
chrono = { version = "0.4", features = ["serde"] }
uuid = { version = "1", features = ["v4", "serde"] }
anyhow = "1"
dotenvy = "*"
tracing = "0.1"
tracing-subscriber = { version = "0.3", features = ["env-filter"] }
tower-http = { version = "*", features = ["cors", "trace"] }
