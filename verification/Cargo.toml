[package]
name = "rusty_socket"
version = "0.1.1"
edition = "2021"
publish = false

[dependencies]
urlencoding = "2"
signal-hook = "0.3"
