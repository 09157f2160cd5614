[package]
name = "newm_admin"
version = "0.1.0"
edition = "2021"
publish = false

[dependencies]
base64 = "*"
serde = { version = "*", features = ["derive"] }
serde_json = "*"
csv = "*"
reqwest = { version = "*", default-features = false, features = ["blocking", "json", "rustls-tls"] }
