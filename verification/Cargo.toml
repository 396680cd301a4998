[package]
name = "codec_bench"
version = "0.1.0"
edition = "2021"
publish = false

[dependencies]
bitcode = { version = "=0.6.9", features = ["serde"] }
criterion = { version = "=0.5.1", default-features = false }
rand_core = "=0.6.4"
rand_pcg = "=0.3.1"
rkyv = "=0.8.18"
serde = { version = "=1.0.229", features = ["derive"] }
