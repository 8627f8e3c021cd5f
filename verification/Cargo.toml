[package]
name = "winit_wayland"
version = "0.1.0"
edition = "2021"
publish = false

[dependencies]
ahash = { version = "0.8", default-features = false, features = ["no-rng"] }
calloop = "0.13"
rustix = { version = "0.38", default-features = false, features = ["std", "pipe"] }
smithay-client-toolkit = { version = "0.19", default-features = false, features = ["calloop"] }
sctk-adwaita = { version = "0.10", default-features = false }
tracing = { version = "0.1", default-features = false }
wayland-backend = { version = "0.3", default-features = false, features = ["client_system"] }
wayland-client = "0.31"
wayland-protocols = { version = "0.32", features = ["staging"] }
wayland-protocols-plasma = { version = "0.3", features = ["client"] }
wayland-scanner = "0.31"
