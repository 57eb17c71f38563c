[package]
name = "xtask_shell"
version = "0.1.0"
edition = "2021"
publish = false

[dependencies]
fakeenv = { version = "=0.1.0", features = ["fake"] }
bitflags = "=2.13.2"
