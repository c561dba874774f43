[package]
name = "nspt"
version = "0.1.0"
edition = "2021"
publish = false

[dependencies]
chrono = "0.4"
env_logger = "0.10"
log = "0.4"
rand = "0.8"
structopt = "0.3"
