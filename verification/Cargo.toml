[package]
name = "fizzy"
version = "0.1.0"
edition = "2021"
publish = false

[dependencies]
clap = "2"
envy = "0.4"
serde = "1"
serde_derive = "1"
log = "0.4"
env_logger = "0.11"
