[package]
name = "asset_access"
version = "0.1.0"
edition = "2021"
publish = false

[dependencies]
uuid = { version = "=1.29.0", features = ["v4", "serde"] }
hmac = "=0.12.1"
sha2 = "=0.10.9"
base64 = "=0.22.1"
serde = { version = "=1.0.229", features = ["derive"] }
serde_json = "=1.0.154"
axum = { version = "=0.7.9", features = ["multipart", "macros"] }
axum-extra = { version = "=0.9.6", features = ["cookie"] }
axum_typed_multipart = "=0.11.2"
axum-macros = "=0.4.2"
reqwest = { version = "=0.12.28", default-features = false, features = ["json", "rustls-tls"] }
tokio = { version = "=1.54.1", features = ["full"] }
tokio-postgres = { version = "=0.7.18", features = ["with-uuid-1"] }
deadpool-postgres = "=0.14.2"
postgres-types = { version = "=0.2.14", features = ["derive", "with-uuid-1"] }
tower-http = { version = "=0.5.2", features = ["cors", "trace"] }
tracing = "=0.1.44"
tracing-subscriber = "=0.3.23"
dotenv = "=0.15.0"
aws-config = "=1.11.0"
aws-sdk-s3 = "=1.152.0"
image = { version = "=0.25.10", default-features = false, features = ["png", "jpeg", "gif", "webp"] }
webp = { version = "=0.3.1", default-features = false }
