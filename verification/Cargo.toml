[package]
name = "clipmon"
version = "0.1.0"
edition = "2021"
publish = false

[dependencies]
calloop = "0.9"
libc = "0.2"
smithay-client-toolkit = "0.15"
wayland-client = "0.29"
wayland-protocols = { version = "0.29", features = ["client", "unstable_protocols"] }
