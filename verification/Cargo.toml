[package]
name = "gauc"
version = "0.1.0"
edition = "2021"
publish = false

[dependencies]
serde_json = "1"
serde = "1"
libc = "0.2"
log = "0.4"
env_logger = "*"
clap = "2"
ctrlc = "*"
iron = "0.6"
hyper = "0.10"
router = "0.6"
urlencoded = "0.6"
