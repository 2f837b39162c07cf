[package]
name = "fs_set_times"
version = "0.1.0"
edition = "2021"
publish = false

[dependencies]
rustix = { version = "*", features = ["fs", "time"] }
