[package]
name = "posixmq"
version = "0.1.0"
edition = "2021"
publish = false

[dependencies]
nix = { version = "=0.31.3", features = ["mqueue", "fs", "time"] }
libc = "*"
