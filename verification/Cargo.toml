[package]
name = "video_underlay"
version = "0.1.0"
edition = "2021"
publish = false

[dependencies]
glow = "=0.18.0"
libmpv = "=2.0.1"
libmpv-sys = "=3.1.0"
slint = { version = "=1.18.1", default-features = false, features = ["std", "compat-1-2"] }
