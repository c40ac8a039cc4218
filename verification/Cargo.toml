[package]
name = "boredapp"
version = "0.1.0"
edition = "2021"
publish = false

[dependencies]
bcrypt = "=0.19.3"
mysql = { version = "=28.0.4", default-features = false, features = ["minimal-rust"] }
serde = { version = "=1.0.229", features = ["derive"] }
tauri = { version = "=2.12.5", default-features = false }
