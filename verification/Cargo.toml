[package]
name = "sc16is752"
version = "0.1.0"
edition = "2021"
publish = false

[dependencies]
embedded-hal-async = "*"
embedded-io-async = "*"
