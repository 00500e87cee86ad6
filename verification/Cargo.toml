[package]
name = "asaogea"
version = "0.1.0"
edition = "2021"
publish = false

[dependencies]
base64 = "=0.22.1"
anyhow = "=1.0.104"
vulkanalia = { version = "=0.35.0", features = ["libloading", "window"] }
winit = "=0.30.13"
gltf = "=1.4.1"
glam = "=0.34.2"
tracing = "=0.1.44"
tracing-subscriber = "=0.3.23"
hassle-rs = "=0.12.0"
lockfree = "=0.5.1"
num_cpus = "=1.17.0"
image = { version = "=0.25.10", default-features = false, features = ["png", "jpeg", "gif", "bmp", "ico", "tga", "pnm", "hdr", "qoi", "webp", "dds", "ff"] }
