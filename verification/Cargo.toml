[package]
name = "psplit"
version = "0.1.0"
edition = "2021"
publish = false

[dependencies]
rust-ini = "*"
libc = "*"
errno = "*"
mio = { version = "*", features = ["os-poll", "os-ext"] }
