[package]
name = "wonky"
version = "0.1.0"
edition = "2021"
publish = false

[dependencies]
kurbo = "=0.13.1"
skia-safe = "=0.153.3"
skrifa = "=0.48.0"
read-fonts = "=0.45.0"
clap = { version = "=4.6.7", features = ["derive"] }
log = "=0.4.34"
env_logger = "=0.11.11"
bytemuck = "=1.25.2"
