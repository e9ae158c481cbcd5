[package]
name = "alkahest"
version = "0.1.0"
edition = "2021"
publish = false

[dependencies]
anyhow = "=1.0.104"
destiny-pkg = "=0.17.3"
egui = { version = "=0.37.0", default-features = false }
genmesh = "=0.6.2"
glam = "=0.34.1"
itertools = "=0.15.0"
windows = { version = "=0.43.0", features = ["Win32_Foundation", "Win32_Graphics_Direct3D", "Win32_Graphics_Direct3D11", "Win32_Graphics_Dxgi_Common"] }
