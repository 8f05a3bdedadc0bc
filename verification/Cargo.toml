[package]
name = "mux"
version = "0.1.0"
edition = "2021"
publish = false

[dependencies]
anyhow = "1"
log = "0.4"
percent-encoding = "2"
portable-pty = "*"
url = "2"
