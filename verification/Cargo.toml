[package]
name = "bevy_text_mode"
version = "0.1.0"
edition = "2021"
publish = false

[dependencies]
bytemuck = { version = "1", features = ["derive"] }
fixedbitset = "0.5"
