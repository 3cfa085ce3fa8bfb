[package]
name = "teikyou_mock"
version = "0.1.0"
edition = "2021"
publish = false

[dependencies]
axum = "0.8"
chrono = "0.4"
rand = "0.9"
serde = { version = "1", features = ["derive"] }
serde_json = "1"
serde-xml-rs = "*"
tokio = { version = "1", features = ["macros", "net", "rt-multi-thread"] }
