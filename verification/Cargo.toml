[package]
name = "oxide_engine"
version = "0.1.0"
edition = "2021"
publish = false

[dependencies]
serde = { version = "=1.0.229", features = ["derive"] }
serde_json = "=1.0.154"
postcard = { version = "=1.1.3", features = ["use-std"] }
rmp-serde = "=1.3.1"
clap = { version = "=4.6.7", features = ["derive"] }
uuid = { version = "=1.29.0", features = ["v4", "serde"] }
hecs = "=0.10.5"
bytemuck = { version = "=1.25.2", features = ["derive"] }
tobj = "=4.0.5"
gltf = "=1.4.1"
image = { version = "=0.24.9", default-features = false, features = ["png", "jpeg"] }
winit = { version = "=0.29.15", features = ["rwh_05"] }
vulkano = "0.34"
log = "=0.4.35"
env_logger = "=0.11.11"
