[package]
name = "optix"
version = "0.1.0"
edition = "2021"
publish = false

[dependencies]
mint = "=0.5.9"
