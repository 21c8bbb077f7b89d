[package]
name = "rustatio"
version = "0.1.0"
edition = "2021"
publish = false

[dependencies]
rand = "*"
nanoid = "*"
serde = { version = "*", features = ["derive"] }
serde_json = "*"
reqwest = { version = "*", default-features = false, features = ["blocking"] }
