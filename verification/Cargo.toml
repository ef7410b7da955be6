[package]
name = "lavish"
version = "0.2.0"
edition = "2021"
publish = false

[dependencies]
crc = "1"
heck = "0.3"
indexmap = "1"
clap = "2"
colored = "1"
env_logger = "0.6"
simple-error = "0.1"
