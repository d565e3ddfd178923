[package]
name = "vjoy_manager"
version = "0.1.0"
edition = "2021"
publish = false

[dependencies]
indexmap = "=2.14.2"
ringbuffer = "*"
serde = { version = "=1.0.229", features = ["derive"] }
toml = "=1.1.8"
log = "=0.4.34"
env_logger = "=0.11.11"
thiserror = "=2.0.21"
sdl2 = "=0.38.0"
vjoy = "=0.7.1"
