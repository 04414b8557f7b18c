[package]
name = "jsonschema_custom_validation"
version = "0.1.0"
edition = "2021"
publish = false

[dependencies]
proc-macro2 = "*"
quote = "*"
serde_json = "*"
syn = { version = "*", features = ["full"] }
