[package]
name = "niri"
version = "0.1.0"
edition = "2021"
publish = false

[dependencies]
anyhow = "1"
atomic = "0.6"
calloop = "0.14"
futures-util = "0.3"
knuffel = "3.2"
libc = "0.2"
smithay = { version = "*", default-features = false, features = ["wayland_frontend"] }
tracy-client = { version = "*", default-features = false }
zbus = "5"
