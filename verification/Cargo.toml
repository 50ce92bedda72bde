[package]
name = "torn_status_widget"
version = "0.1.0"
edition = "2021"
publish = false

[dependencies]
image = { version = "=0.25.10", default-features = false, features = ["png"] }
tauri = { version = "=2.12.5", default-features = false, features = ["wry", "tray-icon"] }
