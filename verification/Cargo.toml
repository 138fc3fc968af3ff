[package]
name = "anytone_emu"
version = "0.1.0"
edition = "2021"
publish = false

[dependencies]
clap = { version = "*", features = ["derive"] }
home = "*"
log = "*"
nix = "0.26.4"
serialport = { version = "*", default-features = false }
stderrlog = "*"
