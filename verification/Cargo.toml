[package]
name = "frame_header"
version = "0.1.0"
edition = "2021"
publish = false

[dependencies]
zerocopy = "0.7"
