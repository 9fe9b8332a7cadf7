[package]
name = "apollo_core"
version = "0.1.0"
edition = "2021"
publish = false

[dependencies]
anchor-lang = { version = "0.28", features = ["init-if-needed"] }
anchor-spl = { version = "0.28", default-features = false, features = ["token"] }
