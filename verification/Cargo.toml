[package]
name = "hyperlight"
version = "0.1.0"
edition = "2021"
publish = false

[dependencies]
anyhow = "1"
flatbuffers = "23.5.26"
tracing = "0.1"
windows = { version = "0.51", features = ["Win32_Foundation", "Win32_System_Hypervisor"] }
