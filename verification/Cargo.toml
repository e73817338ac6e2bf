[package]
name = "rstar_capi"
version = "0.1.0"
edition = "2021"
publish = false

[dependencies]
rstar = "0.12"
