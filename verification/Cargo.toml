[package]
name = "climb_splitter"
version = "0.1.0"
edition = "2021"

[dependencies]
asr = "*"
