[package]
name = "sigmaverse"
version = "0.1.0"
edition = "2021"
publish = false

[dependencies]
gstd = "1.6"
sails-rs = "0.6"
