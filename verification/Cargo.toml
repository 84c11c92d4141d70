[package]
name = "distro_builder"
version = "0.1.0"
edition = "2021"
publish = false

[dependencies]
anyhow = "=1.0.104"
serde = { version = "=1.0.229", features = ["derive"] }
serde_json = "=1.0.154"
sha2 = "=0.10.9"
tar = "=0.4.46"
walkdir = "=2.5.0"
zstd = "=0.13.4"
fs2 = "=0.4.3"
libc = "=0.2.191"
time = "=0.3.55"
