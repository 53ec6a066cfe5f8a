[package]
name = "nibbled"
version = "0.1.0"
edition = "2021"
publish = false

[dependencies]
bytesize = "*"
clap = { version = "*", features = ["derive"] }
crossterm = "*"
hex = "*"
memchr = "*"
