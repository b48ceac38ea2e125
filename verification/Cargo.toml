[package]
name = "webp_batch"
version = "0.1.0"
edition = "2021"
publish = false

[dependencies]
image = { version = "=0.24.9", default-features = false, features = ["jpeg", "png"] }
jpeg-decoder = { version = "=0.3.2", default-features = false, features = ["platform_independent"] }
webp = { version = "=0.2.6", default-features = false }
rayon = "=1.12.0"
walkdir = "=2.5.0"
structopt = "=0.3.26"
