[package]
name = "cufinder"
version = "0.1.0"
edition = "2021"
publish = false

[dependencies]
serde = "*"
serde_json = "*"
serde_urlencoded = "*"
thiserror = "*"
reqwest = { version = "*", default-features = false }
