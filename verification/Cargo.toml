[package]
name = "resend_rs"
version = "0.1.0"
edition = "2021"
publish = false

[dependencies]
ecow = "=0.3.1"
futures-timer = "*"
reqwest = { version = "=0.13.5", default-features = false, features = ["json"] }
serde = { version = "=1.0.229", features = ["derive"] }
serde_json = "=1.0.151"
