[package]
name = "toml_label"
version = "0.1.0"
edition = "2021"

[dependencies]
toml = "*"
syn = { version = "*", features = ["full"] }
quote = "*"
proc-macro2 = "*"
