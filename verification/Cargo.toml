[package]
name = "admin_http"
version = "0.1.0"
edition = "2021"
publish = false

[dependencies]
bcrypt = "0.15"
jsonwebtoken = "9"
chrono = "0.4"
serde = { version = "1", features = ["derive"] }
serde_derive = "1"
serde_json = "1"
axum = "0.6"
tower-http = { version = "0.4", features = ["cors"] }
tokio = { version = "1", features = ["rt", "macros"] }
log = "0.4"
