[package]
name = "async_filelock"
version = "0.1.0"
edition = "2021"
publish = false

[dependencies]
async-std = { version = "*", features = ["unstable"] }
async-trait = "*"
libc = "*"

[dev-dependencies]
fs2 = "*"
tempfile = "*"
