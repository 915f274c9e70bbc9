[package]
name = "mtio"
version = "0.1.0"
edition = "2021"
rust-version = "1.74"
publish = false

[dependencies]
bitflags = "2"
nix = { version = "0.29", features = ["ioctl"] }
thiserror = "1"
