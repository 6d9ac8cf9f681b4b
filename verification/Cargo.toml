[package]
name = "libsolv"
version = "0.1.0"
edition = "2021"
publish = false

[dependencies]
libc = "0.2"
md-5 = "0.10"
sha1 = "0.10"
sha2 = "0.10"
clap = "2"
