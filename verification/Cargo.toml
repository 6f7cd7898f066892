[package]
name = "regex_charclass"
version = "0.1.0"
edition = "2021"
publish = false

[dependencies]
serde = { version = "*", features = ["derive"] }
serde_json = "*"
ahash = "*"

[dev-dependencies]
irange = "*"
regex-syntax = "*"
