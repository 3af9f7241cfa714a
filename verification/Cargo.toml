[package]
name = "ohcrab"
version = "0.1.0"
edition = "2021"
publish = false

[dependencies]
regex = "1"
shlex = "1"
which = "*"
clap = { version = "4", features = ["cargo", "env"] }
env_logger = "*"
log = "0.4"
tar = "0.4"
zip = { version = "*", default-features = false }
