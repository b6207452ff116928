[package]
name = "prompt_footer"
version = "0.1.0"
edition = "2021"
publish = false

[dependencies]
iocraft = "*"
unicode-width = "*"
