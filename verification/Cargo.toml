[package]
name = "jex_vm"
version = "0.1.0"
edition = "2021"
publish = false

[dependencies]
extendable_vm = "*"
clap = { version = "*", features = ["derive"] }
log = "*"
pretty_env_logger = "*"
