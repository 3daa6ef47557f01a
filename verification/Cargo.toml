[package]
name = "rucp"
version = "0.1.0"
edition = "2021"
publish = false

[dev-dependencies]
tempdir = "0.3"
