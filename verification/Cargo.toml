[package]
name = "blaze_app"
version = "0.1.0"
edition = "2021"
publish = false

[dependencies]
egui = { version = "*", default-features = false }
urlencoding = "*"
crossbeam-channel = "*"
uuid = { version = "*", features = ["v4"] }
serde = { version = "*", features = ["derive"] }
serde_json = "*"
chrono = "*"
dirs = "*"
anyhow = "*"
once_cell = "*"
parking_lot = "*"
file-id = "*"
tracing = "*"
