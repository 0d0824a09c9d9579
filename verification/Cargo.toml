[package]
name = "ts7200"
version = "0.1.0"
edition = "2021"
publish = false

[dependencies]
crossbeam-channel = "*"
armv4t_emu = "*"
goblin = "*"
log = "*"
pretty_env_logger = "*"
structopt = "*"
termion = "*"
