[package]
name = "kajiya"
version = "0.1.0"
edition = "2021"
publish = false

[dependencies]
anyhow = "*"
bytes = "*"
futures = "*"
log = "*"
smol = "*"
turbosloth = "*"
