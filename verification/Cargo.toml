[package]
name = "hypoterra"
version = "0.1.0"
edition = "2021"
publish = false

[dependencies]
tetra = "0.4"
