[package]
name = "async_filelike"
version = "0.1.0"
edition = "2021"
publish = false

[dependencies]
async-io = "1"
async-lock = "2"
blocking = "1"
futures-lite = "1"
log = "0.4"
once_cell = "1"
