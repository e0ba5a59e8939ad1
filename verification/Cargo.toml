[package]
name = "rust_pixel"
version = "0.1.0"
edition = "2021"
publish = false

[dependencies]
rand = "=0.8.8"
rand_xoshiro = { version = "=0.6.0", features = ["serde1"] }
bincode = "=1.3.3"
serde = "=1.0.229"
lazy_static = "=1.5.1"
log = "=0.4.35"
log4rs = { version = "=1.4.0", default-features = false, features = ["file_appender", "pattern_encoder", "threshold_filter"] }
wgpu = "=0.20.1"
