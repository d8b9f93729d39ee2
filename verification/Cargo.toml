[package]
name = "jwt_guard"
version = "0.1.0"
edition = "2021"
publish = false

[dependencies]
jsonwebtoken = { version = "=11.1.0", features = ["rust_crypto"] }
serde_json = "=1.0.151"
sanitize-filename = "=0.6.0"
serde = { version = "=1.0.229", features = ["derive"] }
actix-web = "=4.15.0"
actix-multipart = "=0.8.5"
futures = "=0.3.34"
futures-util = "=0.3.34"
chrono = { version = "=0.4.45", features = ["serde"] }
deadpool-postgres = { version = "=0.14.2", features = ["serde"] }
tokio-postgres = { version = "=0.7.18", features = ["with-chrono-0_4"] }
tokio-pg-mapper = "=0.2.0"
tokio-pg-mapper-derive = "=0.2.0"
log = "=0.4.34"
