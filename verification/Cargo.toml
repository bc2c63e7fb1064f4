[package]
name = "reliquary_codegen"
version = "0.1.0"
edition = "2021"
publish = false

[dependencies]
protobuf-codegen = "=3.7.2"
quote = { version = "=1.0.47", default-features = false }
serde_json = { version = "=1.0.154", features = ["preserve_order"] }
