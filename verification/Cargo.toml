[package]
name = "input_method_service"
version = "0.1.0"
edition = "2021"
publish = false

[dependencies]
wayland-client = "=0.31.15"
wayland-protocols = { version = "=0.32.13", features = ["client", "unstable"] }
wayland-protocols-misc = { version = "*", features = ["client"] }
tempfile = "3"
memmap2 = "0.9"
