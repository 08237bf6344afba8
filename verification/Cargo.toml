[package]
name = "idlescreen"
version = "0.1.0"
edition = "2021"
publish = false

[dependencies]
anyhow = "1"
bytemuck = "1"
futures-lite = "2"
libc = "0.2"
signal-hook = "0.3"
tokio = { version = "1", features = ["rt"] }
tracing = "0.1"
wgpu = "*"
zbus = "5"
