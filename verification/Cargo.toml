[package]
name = "clearscreen"
version = "0.1.0"
edition = "2021"
publish = false

[dependencies]
terminfo = "*"
nix = "0.26"
