[package]
name = "health_notify"
version = "0.1.0"
edition = "2021"
publish = false

[dependencies]
anyhow = "1"
clap = "4"
nix = { version = "*", features = ["signal", "process"] }
shuteye = "*"
signal-hook = { version = "0.3", features = ["extended-siginfo"] }
