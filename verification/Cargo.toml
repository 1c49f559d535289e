[package]
name = "screensnap"
version = "0.1.0"
edition = "2021"
publish = false

[dependencies]
once_cell = "*"
image = { version = "*", default-features = false, features = ["png"] }
