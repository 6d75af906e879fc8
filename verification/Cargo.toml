[package]
name = "cata_rust"
version = "0.1.0"
edition = "2021"
publish = false

[dependencies]
url = "2"
webbrowser = "*"
cxx = "1"
