[package]
name = "mime_quoting"
version = "0.1.0"
edition = "2021"
publish = false

[dependencies]
quoted-string = "*"
