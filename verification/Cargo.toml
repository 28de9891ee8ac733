[package]
name = "kylin_stock"
version = "0.1.0"
edition = "2021"
publish = false

[dependencies]
sqlx = { version = "0.7", default-features = false, features = ["sqlite", "runtime-tokio"] }
serde = { version = "1", features = ["derive"] }
serde_json = "1"
image = { version = "0.24", default-features = false, features = ["png", "jpeg", "gif", "webp", "bmp"] }
base64 = "0.21"
uuid = { version = "1", features = ["v4"] }
fs2 = "0.4"
