[package]
name = "chibiwasm"
version = "0.1.0"
edition = "2021"
publish = false

[dependencies]
leb128 = "=0.2.7"
thiserror = "=1.0.69"
clap = { version = "=4.6.7", features = ["derive"] }
log = "=0.4.35"
pretty_env_logger = "=0.5.0"
num-traits = "=0.2.19"

[dev-dependencies]
wat = "1"
