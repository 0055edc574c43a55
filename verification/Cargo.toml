[package]
name = "bringup"
version = "0.1.0"
edition = "2021"
publish = false

[dependencies]
sam3x8e = "*"
cortex-m-rt = "*"
panic-halt = "*"
