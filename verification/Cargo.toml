[package]
name = "wasi_ext_lib"
version = "0.1.0"
edition = "2021"
publish = false

[dependencies]
wasi = "0.11"
