[package]
name = "typst_engine"
version = "0.1.0"
edition = "2021"
publish = false

[dependencies]
typst = "0.11"
typst-pdf = "0.11"
typst-assets = { version = "0.11", features = ["fonts"] }
comemo = "0.4"
