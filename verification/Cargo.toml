[package]
name = "readonly_fs"
version = "0.1.0"
edition = "2021"
publish = false

[dependencies]
async-trait = "*"
io-extras = "*"
rustix = "*"
wasi-common = "*"
