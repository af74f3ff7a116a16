[package]
name = "nes"
version = "0.1.0"
edition = "2021"
publish = false

[dev-dependencies]
hex = "0.4"
