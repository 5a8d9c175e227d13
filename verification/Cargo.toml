[package]
name = "lite_os"
version = "0.1.0"
edition = "2021"
publish = false

[dependencies]
lazy_static = "1.4"
spin = "0.9"
volatile = "0.2.6"
x86_64 = { version = "0.15", default-features = false, features = ["instructions"] }
