[package]
name = "wgpu_native"
version = "0.1.0"
edition = "2021"
publish = false

[dependencies]
log = "0.4"
parking_lot = "0.12"
smallvec = "1"
wgpu = { version = "26", default-features = false, features = ["std", "wgsl", "spirv", "glsl", "vulkan", "noop"] }
wgpu-core = { version = "26", default-features = false }
wgpu-types = { version = "26", default-features = false, features = ["std"] }
