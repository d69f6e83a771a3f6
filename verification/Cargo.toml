[package]
name = "udtool"
version = "0.1.0"
edition = "2021"
publish = false

[dependencies]
dirs = "5"
indicatif = "0.17"
reqwest = { version = "0.12", features = ["blocking", "multipart"] }
serde_json = "1"
