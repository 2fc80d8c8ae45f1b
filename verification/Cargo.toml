[package]
name = "xdp_maps"
version = "0.1.0"
edition = "2021"
publish = false
