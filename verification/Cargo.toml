[package]
name = "rayshot"
version = "0.1.0"
edition = "2021"
publish = false

[dependencies]
chrono = "0.4"
global-hotkey = "*"
image = { version = "*", default-features = false, features = ["png"] }
tokio = { version = "*", features = ["rt-multi-thread", "sync", "macros"] }
xcap = "*"
