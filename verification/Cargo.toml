[package]
name = "git-quickfix"
version = "0.1.0"
edition = "2021"
publish = false

[dependencies]
git2 = { version = "*", default-features = false }
color-eyre = "*"
eyre = "*"
env_logger = "*"
log = "*"
structopt = "*"

[dev-dependencies]
tempfile = "*"
