[package]
name = "starling"
version = "0.1.0"
edition = "2021"
publish = false

[dependencies]
futures = "=0.1.31"
futures-cpupool = "=0.1.8"
mozjs = "=0.9.5"
tokio-core = "=0.1.18"
