[package]
name = "resotool"
version = "0.1.0"
edition = "2021"
publish = false

[dependencies]
fundsp = { version = "*", default-features = false, features = ["std"] }
