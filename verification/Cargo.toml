[package]
name = "fht_compositor"
version = "25.3.1"
edition = "2021"
publish = false

[dependencies]
anyhow = "=1.0.104"
async-channel = "=2.5.0"
calloop = "=0.14.5"
clap = { version = "=4.6.7", features = ["derive"] }
clap_complete = "=4.6.11"
colors-transform = "=0.2.11"
drm-ffi = "=0.9.1"
indexmap = { version = "=2.14.2", features = ["serde"] }
libc = "=0.2.191"
libdisplay-info = "=0.3.0"
regex = "=1.13.1"
serde = { version = "=1.0.229", features = ["derive"] }
smithay = { version = "=0.7.0", default-features = false, features = ["wayland_frontend", "desktop", "backend_drm"] }
tracing = "=0.1.44"
