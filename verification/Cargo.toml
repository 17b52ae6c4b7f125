[package]
name = "wasi_sockets"
version = "0.1.0"
edition = "2021"
publish = false

[dependencies]
ipnet = "2"
libc = "0.2"
