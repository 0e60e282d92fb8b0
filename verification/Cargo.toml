[package]
name = "openxr_loop"
version = "0.1.0"
edition = "2021"
publish = false

[dependencies]
openxr = "*"
parking_lot = "*"
