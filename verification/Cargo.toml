[package]
name = "poc_protection_functions"
version = "0.1.0"
edition = "2021"
publish = false

[dependencies]
socket2 = { version = "=0.6.5", features = ["all"] }
libc = "=0.2.190"
log = "=0.4.34"
env_logger = "=0.11.11"
serde = { version = "=1.0.229", features = ["derive"] }
serde_json = "=1.0.151"
