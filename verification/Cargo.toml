[package]
name = "entity_physics"
version = "0.1.0"
edition = "2021"
publish = false

[dependencies]
rapier2d = "*"
macroquad = "*"
