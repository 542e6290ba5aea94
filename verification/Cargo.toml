[package]
name = "rustos"
version = "0.1.0"
edition = "2021"
publish = false

[dependencies]
bootloader = "=0.9.35"
lazy_static = { version = "=1.5.1", features = ["spin_no_std"] }
spin = "=0.9.9"
x86_64 = { version = "=0.14.13", default-features = false, features = ["instructions"] }
