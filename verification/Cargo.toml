[package]
name = "mtld3d-core"
version = "0.1.0"
edition = "2021"
publish = false

[dependencies]
bitflags = "2"
log = "0.4"
rustc-hash = "2"
xxhash-rust = { version = "0.8", features = ["xxh3"] }
