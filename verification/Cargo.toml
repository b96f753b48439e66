[package]
name = "vulkan_command"
version = "0.1.0"
edition = "2021"
publish = false

[dependencies]
ash = "0.22"
smallvec = "0.6"
