[package]
name = "stacktrace"
version = "0.1.0"
edition = "2021"
publish = false

[dependencies]
elf = "*"
