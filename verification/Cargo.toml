[package]
name = "cosmic-ext-ime"
version = "0.1.0"
edition = "2021"
publish = false

[dependencies]
anyhow = "1"
log = "0.4"
env_logger = "*"
serde = { version = "1", features = ["derive"] }
wayland-client = "0.31"
wayland-protocols-misc = { version = "0.3", features = ["client"] }
xkbcommon = "*"
wayland-protocols = { version = "0.32", features = ["client", "staging"] }
memmap2 = "0.9"
rustix = { version = "*", features = ["fs"] }
cosmic-text = "*"
