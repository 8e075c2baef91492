[package]
name = "caldeira"
version = "0.1.0"
edition = "2021"
publish = false

[dependencies]
ash = "0.31"
image = { version = "0.23", default-features = false, features = ["png"] }
log = "0.4"
pretty_env_logger = "0.4"
winit = "0.22"
