[package]
name = "handy_core"
version = "0.1.0"
edition = "2021"
publish = false

[dependencies]
hound = "*"
serde_json = "*"
reqwest = { version = "*", default-features = false, features = ["blocking", "multipart", "json", "rustls-tls"] }
signal-hook = "*"
