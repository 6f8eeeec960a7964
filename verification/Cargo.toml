[package]
name = "tv-tauri"
version = "0.1.0"
edition = "2021"
publish = false

[dependencies]
serde = { version = "1", features = ["derive"] }
serde_json = "1"
if-addrs = "0.15"
libc = "0.2"
log = "0.4"
futures = "0.3"
raw-window-handle = "0.6"
gtk = "0.18"
wayland-client = "0.31"
wayland-egl = "0.32"
objc2-app-kit = "0.3"
