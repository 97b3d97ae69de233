[package]
name = "alkahest_renderer"
version = "0.1.0"
edition = "2021"
publish = false

[dependencies]
rustc-hash = "=2.1.3"
genmesh = "=0.6.2"
glam = { version = "=0.34.1", features = ["bytemuck"] }
fastrand = "=2.5.0"
bytemuck = "=1.25.2"
anyhow = "=1.0.104"
serde = { version = "=1.0.229", features = ["derive"] }
strum = { version = "=0.28.0", features = ["derive"] }
bevy_ecs = { version = "=0.20.0", default-features = false, features = ["std"] }
windows = { version = "=0.58.0", features = ["Win32_Foundation", "Win32_Graphics_Direct3D", "Win32_Graphics_Direct3D11", "Win32_Graphics_Dxgi_Common"] }
