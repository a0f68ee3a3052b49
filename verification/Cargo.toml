[package]
name = "export_matcher"
version = "0.1.0"
edition = "2021"
publish = false

[dependencies]
swc_common = "=26.0.0"
swc_ecmascript = { version = "=74.0.0", features = ["parser"] }
