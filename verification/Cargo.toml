[package]
name = "rustci"
version = "0.1.0"
edition = "2021"
publish = false

[dependencies]
rustyline = "*"
tempdir = "0.3"
