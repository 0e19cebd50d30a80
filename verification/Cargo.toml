[package]
name = "charge_arena"
version = "0.1.0"
edition = "2021"
publish = false

[dependencies]
bevy = { version = "=0.6.1", default-features = false, features = ["bevy_winit", "render", "png", "x11"] }
# The last release that builds on syn 1 with its `full` feature switched on,
# which the derive macros of bevy 0.6 need and do not ask for themselves.
tracing-attributes = "=0.1.23"
