[package]
name = "http_auth_filter"
version = "0.1.0"
edition = "2021"
publish = false

[dependencies]
log = "*"
proxy-wasm = "*"
