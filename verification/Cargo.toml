[package]
name = "compute_test"
version = "0.1.0"
edition = "2021"
publish = false

[dependencies]
gfx-hal = "=0.9.0"
gfx-backend-vulkan = { version = "=0.9.0", default-features = false }
log = { version = "=0.4.34", features = ["std"] }
ansi_term = "=0.12.1"
floating-duration = "=0.1.2"
