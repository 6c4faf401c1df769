[package]
name = "now_playing"
version = "0.1.0"
edition = "2021"
publish = false

[dependencies]
chrono = "*"
smol = "*"
windows = { version = "*", features = ["Media_Control", "Foundation"] }
