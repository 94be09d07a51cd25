[package]
name = "hr_admin"
version = "0.1.0"
edition = "2021"
publish = false

[dependencies]
anyhow = "1"
axum = "0.7"
axum-extra = "0.9"
clap = { version = "4", features = ["derive"] }
config = { version = "0.13", default-features = false, features = ["yaml"] }
const-hex = "1"
digest = { version = "0.10", features = ["mac"] }
hmac = "0.12"
jsonwebtoken = "9"
md-5 = "0.10"
rand = "0.8"
sea-orm = { version = "0.12", default-features = false, features = ["macros", "sqlx-mysql", "runtime-tokio-rustls"] }
serde = { version = "1", features = ["derive"] }
serde_json = "1"
sha1 = "0.10"
sha2 = "0.10"
thiserror = "1"
time = { version = "0.3", features = ["formatting", "parsing", "macros"] }
tokio = { version = "1", features = ["full"] }
tower-http = { version = "0.5", features = ["trace"] }
tracing = "0.1"
tracing-appender = "0.2"
tracing-subscriber = { version = "0.3", features = ["json"] }
validator = { version = "0.18", features = ["derive"] }
