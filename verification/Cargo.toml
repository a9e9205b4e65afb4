[package]
name = "evm"
version = "0.1.0"
edition = "2021"
publish = false

[dependencies]
anyhow = "=1.0.104"
clap = { version = "=4.6.7", features = ["derive"] }
env_logger = "=0.11.11"
hex = "=0.4.3"
landlock = "=0.4.7"
libc = "=0.2.191"
log = "=0.4.34"
nix = { version = "=0.30.1", features = ["signal"] }
pete = "=0.13.0"
rand = "=0.8.8"
rlimit = "=0.11.0"
seccompiler = "=0.5.0"
signal-hook = "=0.3.18"
tempdir = "=0.3.7"
thiserror = "=1.0.69"
