[package]
name = "touchgrass"
version = "0.1.0"
edition = "2021"
publish = false

[dependencies]
chrono = "*"
rand = "*"
user-idle2 = "*"
tokio = { version = "*", features = ["rt-multi-thread", "macros", "time", "sync"] }
notify-rust = "*"
wayland-client = "*"
wayland-protocols = { version = "*", features = ["client", "staging"] }
serde = { version = "*", features = ["derive"] }
serde_json = "*"
