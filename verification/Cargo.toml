[package]
name = "core_detect"
version = "0.1.0"
edition = "2021"
publish = false

[dependencies]
x86_64 = { version = "=0.15.5", default-features = false, features = ["instructions"] }

[dev-dependencies]
cupid = "=0.6.1"
