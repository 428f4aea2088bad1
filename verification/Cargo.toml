[package]
name = "spdx_update"
version = "0.1.0"
edition = "2021"
publish = false

[dependencies]
failure = "0.1"
reqwest = { version = "0.11", features = ["blocking", "json"] }
serde_json = "1"
