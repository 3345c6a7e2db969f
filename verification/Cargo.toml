[package]
name = "redox_disk_installer"
version = "0.1.0"
edition = "2021"
publish = false

[dependencies]
libc = "*"
