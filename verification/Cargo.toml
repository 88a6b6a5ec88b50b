[package]
name = "service_desk_auth"
version = "0.1.0"
edition = "2021"
publish = false

[dependencies]
serde = { version = "*", features = ["derive"] }
serde_json = "*"
reqwest = { version = "*", default-features = false, features = ["cookies", "json"] }
tokio = { version = "*", features = ["rt-multi-thread", "macros"] }
