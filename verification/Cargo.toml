[package]
name = "bucket_offset"
version = "0.1.0"
edition = "2021"
publish = false

[dependencies]
rand = "0.8"
rand_chacha = "0.3"
rand_core = "0.6"
wgpu = "0.17"
pollster = "0.3"
futures-intrusive = "0.5"
log = "0.4"
bytemuck = "1"
encase = "0.6"
