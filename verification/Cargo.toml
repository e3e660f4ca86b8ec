[package]
name = "mm2_aligner"
version = "0.1.0"
edition = "2021"
publish = false

[dependencies]
libc = "*"
minimap2-sys = "*"
