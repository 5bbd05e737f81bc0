[package]
name = "stream_client"
version = "0.1.0"
edition = "2021"
publish = false

[dependencies]
ash = "=0.38.0"
crossbeam-channel = "=0.5.17"
eframe = { version = "=0.33.3", default-features = false, features = ["default_fonts", "glow", "wgpu", "x11"] }
khronos-egl = { version = "=6.0.0", features = ["dynamic"] }
libc = "=0.2.191"
serde = { version = "=1.0.229", features = ["derive"] }
serde_json = "=1.0.154"
# The renderer that eframe brings. Named for its default features, the backends among them.
wgpu = "=27.0.1"
