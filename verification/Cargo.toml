[package]
name = "uproc"
version = "0.1.0"
edition = "2021"
publish = false

[dependencies]
nix = { version = "=0.26.4", features = ["ptrace", "process", "fs", "uio", "signal"] }
syscalls = "=0.8.1"
sysinfo = "=0.39.6"
log = "=0.4.34"
pretty_env_logger = "=0.5.0"
thiserror = "=2.0.21"
thirtyfour = "=0.37.5"
csv = "=1.4.0"
url = "=2.5.8"
serde = { version = "=1.0.229", features = ["derive"] }

[dev-dependencies]
subprocess = "*"
