[package]
name = "tr300"
version = "0.1.0"
edition = "2021"
publish = false

[dependencies]
sysinfo = "*"
dirs = "*"
users = "*"
libc = "*"
clap = { version = "*", features = ["derive"] }
crossterm = "*"
thiserror = "*"
