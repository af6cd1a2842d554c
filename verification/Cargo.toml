[package]
name = "deskcharm"
version = "0.1.0"
edition = "2021"
publish = false

[dependencies]
core-graphics = "=0.25.0"
objc2 = "=0.6.5"
