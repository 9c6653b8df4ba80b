[package]
name = "rezprox"
version = "0.1.0"
edition = "2021"
publish = false

[dependencies]
crossbeam = "*"
log = "*"
env_logger = "*"
