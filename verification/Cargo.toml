[package]
name = "watchcrab"
version = "0.1.0"
edition = "2021"
publish = false

[dependencies]
crossbeam-channel = "*"
threadpool = "*"
notify = "*"
signal-hook = "*"
clap = { version = "*", features = ["derive"] }
libc = "*"
