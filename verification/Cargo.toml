[package]
name = "rclrs"
version = "0.1.0"
edition = "2021"
publish = false

[dependencies]
once_cell = "*"
tokio = { version = "*", default-features = false, features = ["rt", "signal"] }
