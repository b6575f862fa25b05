[package]
name = "vibe_codebase"
version = "0.1.0"
edition = "2021"
publish = false

[dependencies]
hex = "=0.4.3"
thiserror = "=1.0.69"
