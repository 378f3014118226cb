[package]
name = "valuelinediscovery"
version = "0.1.0"
edition = "2021"
publish = false

[dependencies]
cast = { version = "0.3.0", default-features = false }
cortex-m = "0.7"
