[package]
name = "sway_analyzer"
version = "0.1.0"
edition = "2021"
publish = false

[dependencies]
sway-ast = "=0.60.0"
sway-types = "=0.60.0"
