[package]
name = "termal"
version = "0.1.0"
edition = "2021"
publish = false

[dependencies]
toml = "0.8"
x11 = { version = "2.21", features = ["xlib", "xft", "xrender"] }
nix = { version = "0.29", features = ["term", "ioctl", "fs", "process", "signal"] }
rodio = { version = "0.19", default-features = false, features = ["wav"] }
arboard = { version = "3", default-features = false }

[dev-dependencies]
vte = "0.13"
