[package]
name = "d3d9_core"
version = "0.1.0"
edition = "2021"
publish = false

[dependencies]
widestring = "*"
log = "*"
env_logger = "*"
