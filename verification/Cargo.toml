[package]
name = "bentos"
version = "0.1.0"
edition = "2021"
publish = false

[dependencies]
pc-keyboard = "=0.5.1"
x86_64 = { version = "=0.14.13", default-features = false, features = ["instructions"] }
bootloader = "=0.9.35"
spin = "=0.5.2"
volatile = "=0.2.7"
lazy_static = "=1.5.1"
