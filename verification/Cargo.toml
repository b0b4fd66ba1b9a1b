[package]
name = "recorder"
version = "0.1.0"
edition = "2021"
publish = false

[dependencies]
anyhow = "1"
async-trait = "0.1"
dng = "*"
glob = "0.3"
num_cpus = "1"
parking_lot = "0.12"
tokio = { version = "1", features = ["rt-multi-thread"] }
vulkano = "0.30"
vulkano_maybe_molten = "*"
vulkano-shaders = "0.30"
vulkano-win = "0.30"
winit = "0.26"
