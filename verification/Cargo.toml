[package]
name = "find_semantic_release_config"
version = "0.1.0"
edition = "2021"
publish = false

[dependencies]
serde_json = "1"
fs-err = "*"

[dev-dependencies]
tempfile = "*"
