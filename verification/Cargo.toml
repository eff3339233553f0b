[package]
name = "tinymid"
version = "0.1.0"
edition = "2021"
publish = false

[dependencies]
clap = "3"
env_logger = "0.9"
log = "0.4"
