[package]
name = "corna"
version = "0.1.0"
edition = "2021"
publish = false

[dependencies]
anyhow = "=1.0.104"
bytemuck = { version = "=1.25.2", features = ["derive"] }
dirs = "=5.0.1"
env_logger = "=0.11.11"
glow = "=0.13.1"
khronos-egl = { version = "=6.0.0", features = ["static"] }
log = "=0.4.34"
serde = { version = "=1.0.229", features = ["derive"] }
time = { version = "=0.3.55", features = ["local-offset"] }
toml = "=0.8.23"
wayland-client = { version = "=0.31.15", features = ["dlopen"] }
wayland-egl = "=0.32.11"
wayland-protocols-wlr = { version = "=0.3.12", features = ["client"] }
xkbcommon = "=0.8.0"
