[package]
name = "os_rot"
version = "0.1.0"
edition = "2021"
publish = false

[dependencies]
rustix = "1"
thiserror = "2"
