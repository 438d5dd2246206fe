[package]
name = "geonames-rs"
version = "0.1.0"
edition = "2021"
publish = false

[dependencies]
async-trait = "0.1"
reqwest = "0.12"
serde = { version = "1", features = ["derive"] }
serde_json = "1"
url = "2"
