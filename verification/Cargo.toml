[package]
name = "struct_serval"
version = "0.1.0"
edition = "2021"
publish = false

[dependencies]
rocket = { version = "=0.5.0-rc.3", features = ["json"] }
sanitizer = "0.1"
validator = "0.16"
