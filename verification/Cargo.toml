[package]
name = "bitwarden_desktop_next"
version = "0.1.0"
edition = "2021"
publish = false

[dependencies]
chrono = { version = "=0.4.45", default-features = false, features = ["clock", "alloc"] }
uuid = "=1.29.0"
