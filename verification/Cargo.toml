[package]
name = "memfd_recovery"
version = "0.1.0"
edition = "2021"
publish = false

[dependencies]
libsystemd = "*"
rustix = { version = "*", features = ["fs", "mm"] }
