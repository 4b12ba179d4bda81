[package]
name = "flux_core"
version = "0.1.0"
edition = "2021"
publish = false

[dependencies]
la-arena = "0.3"
lasso = { version = "0.7", features = ["multi-threaded"] }
pretty = "0.12"
rowan = "0.15"
