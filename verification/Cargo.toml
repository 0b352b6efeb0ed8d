[package]
name = "game"
version = "0.1.0"
edition = "2021"
publish = false

[dependencies]
getrandom = "=0.4.3"
wtransport = "=0.7.2"
tokio = { version = "=1.54.1", features = ["rt"] }
serde = { version = "=1.0.229", features = ["derive"] }
bevy = { version = "=0.19.1", default-features = false, features = ["std", "bevy_window", "bevy_log"] }
