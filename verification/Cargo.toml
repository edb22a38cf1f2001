[package]
name = "voxterm"
version = "0.1.0"
edition = "2021"
publish = false

[dependencies]
regex = "*"
anyhow = "*"
clap = { version = "*", features = ["derive"] }
crossbeam-channel = "*"
crossterm = "*"
libc = "*"
