[package]
name = "littlefs"
version = "0.1.0"
edition = "2021"
publish = false

[dependencies]
littlefs-sys = "*"
cty = "*"
