[package]
name = "prompt_core"
version = "0.1.0"
edition = "2021"
publish = false

[dependencies]
regex = "1"

[dev-dependencies]
ansi_term = "0.12"
