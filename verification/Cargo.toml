[package]
name = "xv2_converter"
version = "0.1.0"
edition = "2021"
publish = false

[dependencies]
sha1 = "*"
anyhow = "*"
libc = "*"

[dependencies.clap]
version = "*"
features = ["derive"]
