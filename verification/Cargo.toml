[package]
name = "starstraw"
version = "0.1.0"
edition = "2021"
publish = false

[dependencies]
regex = "*"
serde = { version = "*", features = ["derive"] }
serde_json = "*"
axum = "*"
axum-extra = { version = "*", features = ["cookie"] }
dorsal = "*"
