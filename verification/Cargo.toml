[package]
name = "fluxcore_ng"
version = "0.1.0"
edition = "2021"
publish = false

[dependencies]
clap = "*"
csv = "*"
env_logger = "*"
glium = "*"
log = "*"
