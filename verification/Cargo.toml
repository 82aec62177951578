[package]
name = "js_minifier"
version = "0.1.0"
edition = "2021"
rust-version = "1.95.0"
publish = false

[dependencies]
oxc = { version = "=0.139.0", features = ["minifier", "codegen", "semantic"] }
oxc_compat = "=0.139.0"
