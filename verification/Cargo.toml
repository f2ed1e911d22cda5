[package]
name = "devpack_for_rust"
version = "0.1.0"
edition = "2021"
publish = false

[dependencies]
clap = { version = "=4.6.7", features = ["derive"] }
clap-verbosity-flag = "=3.0.4"
console = "=0.16.6"
env_logger = "=0.11.11"
eyre = "=0.6.14"
homedir = "=0.3.6"
log = "=0.4.35"
procfs = "=0.18.0"
sudo = "=0.6.0"
treeversal = { version = "=0.3.0", features = ["console"] }
users = "=0.11.0"
which = "=8.0.6"
