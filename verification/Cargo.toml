[package]
name = "node_cache"
version = "0.1.0"
edition = "2021"
publish = false

[dependencies]
rkyv = "=0.8.18"
tempfile = "=3.27.0"
thiserror = "=2.0.21"
log = "=0.4.34"
reqwest = { version = "=0.12.28", default-features = false }
iced = { version = "=0.14.0", default-features = false, features = ["tiny-skia", "x11", "thread-pool"] }
