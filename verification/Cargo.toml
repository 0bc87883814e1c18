[package]
name = "vivido"
version = "0.1.0"
edition = "2021"
publish = false

[dependencies]
vivid_protocol = "=1.5.11"
sha2 = "=0.11.1"
getrandom = "=0.4.3"
serde_json = "=1.0.154"
tempfile = "=3.27.0"
ringbuf = "=0.6.0"
libc = "=0.2.191"
log = "=0.4.35"
image = { version = "=0.25.10", default-features = false, features = ["png", "jpeg"] }
winit = { version = "=0.30.13", default-features = false, features = ["x11"] }
cpal = "=0.18.2"
vivid_sdk = "*"
