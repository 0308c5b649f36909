[package]
name = "rust-code-analysis"
version = "0.1.0"
edition = "2021"
publish = false

[dependencies]
aho-corasick = "0.7"
regex = "1"
serde = { version = "1", features = ["derive"] }
serde_cbor = "0.11"
serde_json = "1"
serde_yaml = "0.8"
toml = "0.5"
tree-sitter = "0.20"
