[package]
name = "ironn"
version = "0.1.0"
edition = "2021"
publish = false

[dependencies]
actix-web = { version = "4", default-features = false }
chrono = "0.4"
serde_json = "1"
