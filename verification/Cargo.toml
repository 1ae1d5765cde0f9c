[package]
name = "jrpc_core"
version = "0.1.0"
edition = "2021"
publish = false

[dependencies]
json = "*"
actix-web = "*"
env_logger = "*"
futures = "*"
futures-timer = "*"
