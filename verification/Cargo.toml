[package]
name = "service_launcher"
version = "0.1.0"
edition = "2021"
publish = false

[dependencies]
ureq = { version = "=2.12.1", default-features = false }
tauri = { version = "2", default-features = false }
