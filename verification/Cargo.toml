[package]
name = "sec"
version = "1.1.0"
edition = "2021"
publish = false

[dependencies]
serde = "1"
diesel = "1.4"
rocket = { version = "0.5", default-features = false }

[dev-dependencies]
serde_json = "1"
