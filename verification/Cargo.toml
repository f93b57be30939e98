[package]
name = "entity_store_spec"
version = "0.1.0"
edition = "2021"
publish = false

[dependencies]
itertools = "*"
serde = "*"
serde_derive = "*"
toml = "*"
