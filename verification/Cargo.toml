[package]
name = "cdumay_core"
version = "0.1.0"
edition = "2021"
publish = false

[dependencies]
serde = { version = "*", features = ["derive"] }
serde_json = "*"
serde-value = "*"
actix-web = "*"
utoipa = "*"
