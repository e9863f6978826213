[package]
name = "alvr_client_core"
version = "0.1.0"
edition = "2021"
publish = false

[dependencies]
jni = "=0.19.0"
log = "0.4"
ndk = { version = "=0.7.0", features = ["media"] }
ndk-context = "=0.1.1"
ndk-sys = { version = "=0.4.1", features = ["test"] }
once_cell = "=1.21.4"
parking_lot = "=0.12.5"
tokio = { version = "=1.54.1", features = ["rt", "sync", "macros"] }
