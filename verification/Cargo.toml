[package]
name = "mal"
version = "0.1.0"
edition = "2021"

[dependencies]
clap = "2"
rustbox = "0.11"
