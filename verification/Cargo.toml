[package]
name = "like_strace"
version = "0.1.0"
edition = "2021"
publish = false

[dependencies]
nix = { version = "*", features = ["ptrace", "process", "signal", "time"] }
syscalls = { version = "*", features = ["all"] }
clap = { version = "*", features = ["derive"] }
