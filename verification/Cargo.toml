[package]
name = "gtoolkit_vm"
version = "0.1.0"
edition = "2021"
publish = false

[dependencies]
url = "*"
mustache = "*"
json = "*"
clap = { version = "*", features = ["derive"] }
rustc_version = "*"
which = "*"
fs_extra = "*"
