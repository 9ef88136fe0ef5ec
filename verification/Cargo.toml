[package]
name = "status_line"
version = "0.2.0"
edition = "2021"
publish = false

[dependencies]
ansi-escapes = "0.1"
atty = "0.2"
