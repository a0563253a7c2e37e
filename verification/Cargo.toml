[package]
name = "selfllama"
version = "0.1.0"
edition = "2021"
publish = false

[dependencies]
serde = { version = "1", features = ["derive"] }
serde_json = "1"
libc = "0.2"
reqwest = { version = "0.12", default-features = false, features = ["blocking", "json"] }
local-ip-address = "0.6"
