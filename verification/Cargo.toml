[package]
name = "nse"
version = "0.1.0"
edition = "2021"
publish = false

[dependencies]
rand = "*"
log = "*"
env_logger = "*"
structopt = "*"
itertools = "*"
thiserror = "*"
