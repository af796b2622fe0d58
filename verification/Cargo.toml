[package]
name = "cmdrun"
version = "0.1.0"
edition = "2021"
publish = false

[dependencies]
anyhow = "1"
atty = "0.2"
termcolor = "1"
