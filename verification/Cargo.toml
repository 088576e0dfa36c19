[package]
name = "neptune_core"
version = "0.1.0"
edition = "2021"
publish = false

[dependencies]
itertools = "0.14"
humantime = "2"
rand = "0.9"
triton-vm = "*"
serde = { version = "1", features = ["derive"] }
serde_json = "1"
thiserror = "2"
clap = { version = "4", features = ["derive"] }
anyhow = "1"
rayon = "1"
