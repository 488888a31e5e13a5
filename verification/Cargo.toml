[package]
name = "pixcolor"
version = "0.1.0"
edition = "2021"
publish = false

[dependencies]
rgb = "=0.8.53"
