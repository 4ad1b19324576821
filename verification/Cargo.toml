[package]
name = "ragc"
version = "0.1.0"
edition = "2021"
publish = false

[dependencies]
heapless = "0.8"
clap = "2"
crossbeam-channel = "0.5"
ctrlc = "3"
env_logger = "*"
log = "0.4"
