[package]
name = "command_timeout"
version = "0.1.0"
edition = "2021"
publish = false

[dependencies]
libc = "0.2"
nix = { version = "0.29", features = ["signal", "process"] }
thiserror = "1"
tokio = { version = "1", features = ["io-util", "macros", "process", "rt", "time"] }
tracing = "0.1"
