[package]
name = "syngesture"
version = "0.1.0"
edition = "2021"
publish = false

[dependencies]
evdev-rs = "*"
libc = "0.2"
log = "0.4"
pretty_env_logger = "*"
serde = { version = "1", features = ["derive"] }
serde_repr = "*"
toml = "*"
