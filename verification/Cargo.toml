[package]
name = "lenovo-kb-light"
version = "0.1.0"
edition = "2021"
publish = false

[dependencies]
evdev = "*"
nix = { version = "*", features = ["ioctl", "poll"] }
serde = { version = "*", features = ["derive"] }
signal-hook = "*"
toml = "*"
