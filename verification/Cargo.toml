[package]
name = "redmine_api"
version = "0.1.0"
edition = "2021"
publish = false

[dependencies]
reqwest = { version = "=0.13.5", default-features = false, features = ["blocking"] }
serde_json = { version = "=1.0.154", features = ["preserve_order"] }
