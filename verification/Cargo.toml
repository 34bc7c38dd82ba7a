[package]
name = "lpc43xx"
version = "0.1.0"
edition = "2021"
publish = false

[dependencies]
tock-registers = "=0.10.1"
