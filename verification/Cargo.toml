[package]
name = "rocktree-decode"
version = "0.1.0"
edition = "2021"
publish = false

[dependencies]
glam = "*"
serde_json = "1"
