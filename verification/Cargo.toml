[package]
name = "licer"
version = "1.0.0"
edition = "2021"
publish = false

[dependencies]
colored = "2"
json = "0.12"
toml_edit = "0.19"

[dev-dependencies]
regex = "1"
