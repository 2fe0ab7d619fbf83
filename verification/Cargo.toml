[package]
name = "rustypwn"
version = "0.1.0"
edition = "2021"
publish = false

[dependencies]
regex = "1"
subprocess = "0.2"
