[package]
name = "hook_engine"
version = "0.1.0"
edition = "2021"
publish = false

[dependencies]
minicbor = { version = "0.19", features = ["alloc"] }
byteorder = "1"
rustix = { version = "*", features = ["mm"] }
