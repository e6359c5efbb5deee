[package]
name = "printrs"
version = "0.1.0"
edition = "2021"
publish = false

[dependencies]
async-std = "1"
log = "0.4"
env_logger = "*"
thiserror = "*"
