[package]
name = "rate_limit"
version = "0.1.0"
edition = "2021"
publish = false

[dependencies]
base64 = "0.22"
libc = "0.2"
pico-args = "0.5"
serde = { version = "1", features = ["derive"] }
serde_json = "1"
tempfile = "3"
ureq = "3"
zeroize = "1"
