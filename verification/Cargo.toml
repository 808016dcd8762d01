[package]
name = "exwlshellev"
version = "0.1.0"
edition = "2021"
publish = false

[dependencies]
wayland-client = "=0.31.15"
wayland-protocols = { version = "=0.32.13", features = ["client", "staging", "unstable"] }
