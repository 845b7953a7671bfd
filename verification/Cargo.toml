[package]
name = "b4d_core"
version = "0.1.0"
edition = "2021"
publish = false

[dependencies]
ash = { version = "0.37", default-features = false, features = ["debug"] }
log = "0.4"
