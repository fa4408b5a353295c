[package]
name = "tpvbc2http"
version = "0.1.0"
edition = "2021"
publish = false

[dependencies]
unicode-bom = "*"
notify = "*"
simple-server = "*"
clap = { version = "*", features = ["derive"] }
colog = "*"
log = "*"
