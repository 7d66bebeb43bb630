[package]
name = "token_cell"
version = "0.1.0"
edition = "2021"
publish = false

[dependencies]
paste = "1"
portable-atomic = "1"
