[package]
name = "phrase_upload_keys"
version = "0.1.0"
edition = "2021"
publish = false

[dependencies]
clap = "2"
failure = "0.1"
pbr = "1"
reqwest = "0.9"
serde = "1"
serde_derive = "1"
serde_json = "1"
