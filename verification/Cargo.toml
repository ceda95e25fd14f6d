[package]
name = "project_builder"
version = "0.1.0"
edition = "2021"
publish = false

[dependencies]
miette = "*"
relative-path = "*"
rustc-hash = "*"
schematic = "*"
serde = { version = "*", features = ["derive"] }
serde_yaml = "*"
strum = { version = "*", features = ["derive"] }
thiserror = "*"
tracing = "*"
