[package]
name = "aorura"
version = "0.1.0"
edition = "2021"
publish = false

[dependencies]
serial = "*"
nix = { version = "*", features = ["term", "fs"] }
