[package]
name = "conversation_surface"
version = "0.1.0"
edition = "2021"
publish = false

[dependencies]
anyhow = "1"
log = "0.4"
pathfinder_geometry = "0.5"
