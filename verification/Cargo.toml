[package]
name = "qapp_meta"
version = "0.1.0"
edition = "2021"
publish = false

[dependencies]
url = "2"
