[package]
name = "rusrsctp"
version = "0.1.0"
edition = "2021"
publish = false

[dependencies]
errno = "0.3"
