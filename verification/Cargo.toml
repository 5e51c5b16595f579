[package]
name = "jsonvalidate"
version = "0.1.0"
edition = "2021"
publish = false

[dependencies]
clap = "2"
jsonschema = { version = "*", default-features = false }
serde_json = "1"
