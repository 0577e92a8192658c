[package]
name = "rust_shell"
version = "0.1.0"
edition = "2021"
publish = false

[dependencies]
nix = { version = "=0.31.3", features = ["fs", "process"] }
rustyline = "=18.0.1"
