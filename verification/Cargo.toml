[package]
name = "bjj_lib"
version = "0.1.0"
edition = "2021"
publish = false

[dependencies]
fake = { version = "*", features = ["derive"] }
