[package]
name = "deadliner"
version = "0.1.0"
edition = "2021"
publish = false

[dependencies]
chrono = "0.4"
image = { version = "0.24", default-features = false, features = ["png", "jpeg", "gif"] }
text-to-png = "0.2"
wallpaper = "3"
serde = { version = "1", features = ["derive"] }
serde_json = "1"
