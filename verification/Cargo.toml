[package]
name = "build_debugger_in_rust"
version = "0.1.0"
edition = "2021"
publish = false

[dependencies]
addr2line = { version = "*", features = ["loader"] }
anyhow = "1"
nix = { version = "*", features = ["process", "ptrace", "signal"] }
rustyline = "*"
