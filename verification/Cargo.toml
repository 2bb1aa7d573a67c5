[package]
name = "pastureen"
version = "0.1.0"
edition = "2021"
publish = false

[dependencies]
jsonwebtoken = { version = "=11.1.0", default-features = false, features = ["rust_crypto"] }
serde_json = "=1.0.151"
uuid = { version = "=1.27.0", features = ["v4"] }
markdown = "=1.0.0"
serde_yaml = "=0.9.34"
