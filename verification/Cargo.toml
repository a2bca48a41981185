[package]
name = "avif_transcode"
version = "0.1.0"
edition = "2021"
publish = false

[dependencies]
lodepng = "=3.12.2"
jpeg-decoder = "=0.3.2"
ravif = { version = "=0.13.0", default-features = false, features = ["threading"] }
rgb = "=0.8.53"
imgref = "=1.12.3"
bytes = "=1.12.1"
futures = "=0.3.34"
tokio = { version = "=1.53.2", features = ["macros", "rt-multi-thread"] }
warp = { version = "=0.4.3", features = ["multipart", "server"] }
