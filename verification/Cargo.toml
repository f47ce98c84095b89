[package]
name = "yolol_devices"
version = "0.1.0"
edition = "2021"
publish = false

[dependencies]
convert_case = "0.4"
yaml-rust = "0.4"
