[package]
name = "pga_utils"
version = "0.1.0"
edition = "2021"
publish = false

[dependencies]
geometric_algebra = "=0.1.3"
