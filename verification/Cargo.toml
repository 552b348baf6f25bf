[package]
name = "ascii_art"
version = "0.1.0"
edition = "2021"
publish = false

[dependencies]
image = "*"
clap = { version = "*", features = ["derive"] }
owo-colors = { version = "*", features = ["supports-colors"] }
termsize = "*"
