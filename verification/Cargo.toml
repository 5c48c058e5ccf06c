[package]
name = "telwrap"
version = "0.1.0"
edition = "2021"
publish = false

[dependencies]
bytes = "1"
clap = { version = "4", features = ["derive"] }
nix = "0.26"
tokio = { version = "1", features = ["full"] }
tokio-stream = "0.1"
