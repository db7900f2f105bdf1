[package]
name = "ssh_keyctl"
version = "0.1.0"
edition = "2021"
publish = false

[dependencies]
osshkeys = "*"
dirs = "*"
clap = { version = "*", features = ["derive"] }
