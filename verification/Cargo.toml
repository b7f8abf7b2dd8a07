[package]
name = "jay_compositor"
version = "0.1.0"
edition = "2021"
publish = false

[dependencies]
ahash = "0.8"
arrayvec = "0.7"
blake3 = "1"
clap = { version = "4", features = ["derive"] }
clap_complete = "4"
indexmap = "2"
once_cell = "1"
thiserror = "2"
uapi = "0.2"
