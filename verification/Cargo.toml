[package]
name = "game_of_life"
version = "0.1.0"
edition = "2021"
publish = false

[dependencies]
random = "0.12"
pixels = "0.9"
winit = "0.26"
winit_input_helper = "0.11"
