[package]
name = "pitch_stream"
version = "0.1.0"
edition = "2021"
publish = false

[dependencies]
clap = { version = "=4.6.7", features = ["derive"] }
colog = "=1.4.0"
futures = "=0.3.34"
log = "=0.4.34"
r2r = { version = "=0.9.7", features = ["doc-only"] }
serde = { version = "=1.0.229", features = ["derive"] }
tokio = { version = "=1.53.2", features = ["full"] }
warp = { version = "=0.4.3", features = ["server"] }
