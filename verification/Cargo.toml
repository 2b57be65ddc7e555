[package]
name = "tabby_inference"
version = "0.1.0"
edition = "2021"
publish = false

[dependencies]
async-stream = "*"
async-trait = "*"
derive_builder = "*"
futures = "*"
