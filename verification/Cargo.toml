[package]
name = "screech"
version = "0.1.0"
edition = "2021"
publish = false

[dependencies]
axum = "0.7"
base64 = "0.22"
chrono = "0.4"
serde = { version = "1", features = ["derive"] }
tempfile = "3"
thirtyfour = "*"
thiserror = "1"
tokio = { version = "1", features = ["full"] }
tower = "0.4"
tower-http = { version = "0.5", features = ["cors", "compression-gzip"] }
uuid = { version = "1", features = ["v4"] }
