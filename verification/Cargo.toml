[package]
name = "truesight"
version = "0.1.0"
edition = "2021"
publish = false

[dependencies]
anyhow = "1"
argon2 = "=0.5.3"
aws-config = { version = "1", features = ["behavior-version-latest"] }
aws-sdk-sqs = { version = "1", features = ["behavior-version-latest"] }
axum = "0.8"
bytes = "1"
chrono = { version = "=0.4.45", features = ["serde"] }
clickhouse = "*"
dashmap = "=6.2.1"
diesel = { version = "2", features = ["postgres", "uuid", "chrono", "serde_json", "r2d2"] }
diesel_migrations = "2"
dotenvy = "0.15"
envy = "0.4"
governor = "=0.10.4"
hex = "=0.4.3"
rand = "=0.8.8"
sentry = { version = "*", default-features = false, features = ["backtrace", "contexts", "panic", "tracing"] }
serde = { version = "1", features = ["derive"] }
serde_json = "1"
sha2 = "=0.10.9"
thiserror = "1"
tokio = { version = "1", features = ["full"] }
tower-http = { version = "0.6", features = ["cors", "trace"] }
tracing = "0.1"
tracing-subscriber = { version = "0.3", features = ["env-filter", "json"] }
uuid = { version = "=1.29.0", features = ["v4", "serde"] }
zstd = "=0.13.3"
