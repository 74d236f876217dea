[package]
name = "emulator"
version = "0.1.0"
edition = "2021"
publish = false

[dependencies]
chrono = "0.4"
clap = { version = "4", features = ["derive"] }
fern = { version = "0.6", features = ["colored"] }
log = "0.4"
