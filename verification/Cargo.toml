[package]
name = "heartbeat_kernel"
version = "0.1.0"
edition = "2021"
publish = false

[dependencies]
clap = { version = "=4.6.7", features = ["derive"] }
log = "=0.4.34"
steady_state = { version = "=0.3.1", default-features = false }
