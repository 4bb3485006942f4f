[package]
name = "liana"
version = "0.1.0"
edition = "2021"
publish = false

[dependencies]
gl = "=0.14.0"
glam = "=0.30.10"
