[package]
name = "wlroots"
version = "0.1.0"
edition = "2021"
publish = false

[dependencies]
libc = "=0.2.191"
wayland-sys = { version = "=0.21.13", features = ["dlopen", "server"] }
wlroots-sys = { version = "=0.2.1", features = ["unstable"] }
