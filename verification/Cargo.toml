[package]
name = "passthrough"
version = "0.1.0"
edition = "2021"
publish = false

[dependencies]
anyhow = "*"
clap = { version = "*", features = ["derive"] }
pretty_env_logger = "*"
fuse-sys = "*"
