[package]
name = "revoxelation"
version = "0.1.0"
edition = "2021"
publish = false

[dependencies]
anyhow = "1"
bytemuck = { version = "1", features = ["derive"] }
log = "0.4"
meshopt = "*"
serde = { version = "1", features = ["derive"] }
toml = "*"
