[package]
name = "hanoi"
version = "0.1.0"
edition = "2021"
publish = false

[dependencies]
prototty = "=0.27.0"
prototty_unix = "=0.27.0"
