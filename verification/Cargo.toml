[package]
name = "parity"
version = "1.0.0"
edition = "2021"
publish = false

[dependencies]
docopt = "=0.6.86"
log = "=0.3.9"
env_logger = "=0.3.5"
ctrlc = "=1.1.1"
daemonize = "=0.2.3"
fdlimit = "=0.1.4"

[dev-dependencies]
rustc-serialize = "=0.3.25"
