[package]
name = "pathtracer"
version = "0.1.0"
edition = "2021"
publish = false

[dependencies]
auto_ops = "0.3"
rand = "0.7"
