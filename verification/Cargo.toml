[package]
name = "natsort_core"
version = "0.1.0"
edition = "2021"
publish = false

[dependencies]
unicode-normalization = "0.1"
wasm-bindgen = "0.2"
